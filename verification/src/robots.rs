//! The rules of one host's robots.txt: reading them and judging a path.
//!
//! Only `Allow: <path>` and `Disallow: <path>` lines are read; every other
//! line is skipped. There are no wildcards and no user-agent groups.

use crate::utils::text::{
    lemma_line_end, lemma_line_end_bounds, line_end, starts_with_at, to_chars, trim_range, trimmed,
};
use vstd::prelude::*;
use vstd::string::StrSliceExecFns;

verus! {

/// The path prefixes that a robots.txt allows and disallows, in file order.
#[derive(Clone, Debug)]
pub struct RobotsTxt {
    pub allowed_paths: Vec<String>,
    pub disallowed_paths: Vec<String>,
}

/// What a `RobotsTxt` holds, as sequences of characters.
pub struct RobotsRules {
    pub allow: Seq<Seq<char>>,
    pub disallow: Seq<Seq<char>>,
}

/// The contents of a vector of strings.
pub open spec fn strings_view(v: Seq<String>) -> Seq<Seq<char>> {
    v.map_values(|s: String| s@)
}

impl View for RobotsTxt {
    type V = RobotsRules;

    open spec fn view(&self) -> RobotsRules {
        RobotsRules {
            allow: strings_view(self.allowed_paths@),
            disallow: strings_view(self.disallowed_paths@),
        }
    }
}

/// The path that `line` gives for the directive `keyword`: where the
/// trimmed line begins with the keyword, what follows it, trimmed.
pub open spec fn directive_path(line: Seq<char>, keyword: Seq<char>) -> Option<Seq<char>> {
    let t = trimmed(line);
    if keyword.is_prefix_of(t) {
        Some(trimmed(t.skip(keyword.len() as int)))
    } else {
        None
    }
}

/// The paths of the directive `keyword` in the lines of `text` that start
/// at or after `from`, in order.
pub open spec fn directive_paths(text: Seq<char>, keyword: Seq<char>, from: int) -> Seq<Seq<char>>
    decreases text.len() - from,
    via directive_paths_terminates
{
    if from < 0 || from >= text.len() {
        Seq::empty()
    } else {
        let end = line_end(text, from);
        let rest = if end < text.len() {
            directive_paths(text, keyword, end + 1)
        } else {
            Seq::empty()
        };
        match directive_path(text.subrange(from, end), keyword) {
            Some(path) => seq![path] + rest,
            None => rest,
        }
    }
}

/// The rules that the robots.txt `text` states.
pub open spec fn robots_rules(text: Seq<char>) -> RobotsRules {
    RobotsRules {
        allow: directive_paths(text, "Allow: "@, 0),
        disallow: directive_paths(text, "Disallow: "@, 0),
    }
}

/// Whether one of `prefixes` begins `path`.
pub open spec fn some_prefix_of(prefixes: Seq<Seq<char>>, path: Seq<char>) -> bool {
    exists|i: int| 0 <= i < prefixes.len() && (#[trigger] prefixes[i]).is_prefix_of(path)
}

/// Whether `rules` let a crawler fetch `path`: an allowed prefix wins,
/// else a disallowed prefix forbids, else the path is free.
pub open spec fn rules_allow(rules: RobotsRules, path: Seq<char>) -> bool {
    some_prefix_of(rules.allow, path) || !some_prefix_of(rules.disallow, path)
}

/// A path that an allowed prefix begins may be fetched, whatever is
/// disallowed.
pub proof fn lemma_allow_wins(rules: RobotsRules, path: Seq<char>, i: int)
    requires
        0 <= i < rules.allow.len(),
        rules.allow[i].is_prefix_of(path),
    ensures
        rules_allow(rules, path),
{
}

/// A path that a disallowed prefix begins, and no allowed prefix, may not
/// be fetched.
pub proof fn lemma_disallow_forbids(rules: RobotsRules, path: Seq<char>, j: int)
    requires
        0 <= j < rules.disallow.len(),
        rules.disallow[j].is_prefix_of(path),
        !some_prefix_of(rules.allow, path),
    ensures
        !rules_allow(rules, path),
{
}

/// A path that no prefix begins may be fetched. So may every path where
/// there are no rules.
pub proof fn lemma_default_allow(rules: RobotsRules, path: Seq<char>)
    requires
        !some_prefix_of(rules.disallow, path),
    ensures
        rules_allow(rules, path),
        rules.disallow.len() == 0 ==> forall|other: Seq<char>| rules_allow(rules, other),
{
}

#[via_fn]
proof fn directive_paths_terminates(text: Seq<char>, keyword: Seq<char>, from: int) {
    if 0 <= from < text.len() {
        lemma_line_end_bounds(text, from);
    }
}

/// Tests whether one of `prefixes` begins `path`.
fn any_prefix_of(prefixes: &Vec<String>, path: &Vec<char>) -> (found: bool)
    ensures
        found == some_prefix_of(strings_view(prefixes@), path@),
{
    let ghost views = strings_view(prefixes@);
    let mut i: usize = 0;
    while i < prefixes.len()
        invariant
            0 <= i <= prefixes.len(),
            views == strings_view(prefixes@),
            forall|k: int| 0 <= k < i ==> !(#[trigger] views[k]).is_prefix_of(path@),
        decreases prefixes.len() - i,
    {
        let prefix: Vec<char> = to_chars(prefixes[i].as_str());
        if starts_with_at(path, 0, path.len(), &prefix) {
            assert(views[i as int] == prefix@);
            return true;
        }
        i += 1;
    }
    false
}

impl RobotsTxt {
    /// Reads the rules out of the text of a robots.txt.
    pub fn parse(content: &str) -> (rules: RobotsTxt)
        ensures
            rules@ == robots_rules(content@),
    {
        let chars: Vec<char> = to_chars(content);
        let allow_keyword: Vec<char> = to_chars("Allow: ");
        let disallow_keyword: Vec<char> = to_chars("Disallow: ");
        let mut allowed: Vec<String> = Vec::new();
        let mut disallowed: Vec<String> = Vec::new();
        let mut pos: usize = 0;
        while pos < chars.len()
            invariant
                chars@ == content@,
                allow_keyword@ == "Allow: "@,
                disallow_keyword@ == "Disallow: "@,
                0 <= pos <= chars.len(),
                directive_paths(chars@, allow_keyword@, 0) == strings_view(allowed@)
                    + directive_paths(chars@, allow_keyword@, pos as int),
                directive_paths(chars@, disallow_keyword@, 0) == strings_view(disallowed@)
                    + directive_paths(chars@, disallow_keyword@, pos as int),
            decreases chars.len() - pos,
        {
            let mut end: usize = pos;
            while end < chars.len() && chars[end] != '\n'
                invariant
                    pos <= end <= chars.len(),
                    forall|k: int| pos <= k < end ==> #[trigger] chars@[k] != '\n',
                decreases chars.len() - end,
            {
                end += 1;
            }
            proof {
                lemma_line_end(chars@, pos as int, end as int);
            }
            let ghost line = chars@.subrange(pos as int, end as int);
            let (a, b) = trim_range(&chars, pos, end);
            if starts_with_at(&chars, a, b, &allow_keyword) {
                let (c, d) = trim_range(&chars, a + allow_keyword.len(), b);
                let path: String = content.substring_char(c, d).to_owned();
                assert(chars@.subrange(a + allow_keyword@.len(), b as int) =~= trimmed(line).skip(
                    allow_keyword@.len() as int,
                ));
                allowed.push(path);
            }
            if starts_with_at(&chars, a, b, &disallow_keyword) {
                let (c, d) = trim_range(&chars, a + disallow_keyword.len(), b);
                let path: String = content.substring_char(c, d).to_owned();
                assert(chars@.subrange(a + disallow_keyword@.len(), b as int) =~= trimmed(
                    line,
                ).skip(disallow_keyword@.len() as int));
                disallowed.push(path);
            }
            if end < chars.len() {
                pos = end + 1;
            } else {
                pos = end;
            }
        }
        RobotsTxt { allowed_paths: allowed, disallowed_paths: disallowed }
    }

    /// Judges whether these rules let a crawler fetch `path`.
    pub fn is_allowed(&self, path: &str) -> (allowed: bool)
        ensures
            allowed == rules_allow(self@, path@),
    {
        let chars: Vec<char> = to_chars(path);
        if any_prefix_of(&self.allowed_paths, &chars) {
            return true;
        }
        !any_prefix_of(&self.disallowed_paths, &chars)
    }
}

} // verus!
