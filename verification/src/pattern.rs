//! The exclusion patterns: how the fragments of the caller become one
//! regular expression.

use crate::error::FindError;
use crate::outside::{compile_regex, compiled, regex_matched};
use crate::text::texts;
use regex::Regex;
use vstd::prelude::*;

verus! {

/// What a list of fragments excludes.
pub enum Exclusion {
    /// There is no fragment: no path is excluded.
    Nothing,
    /// The paths in which the pattern of the fragments finds a match.
    Paths(Set<Seq<char>>),
    /// A fragment, or the pattern that joins the fragments, is not a valid
    /// regular expression.
    Invalid,
}

/// The fragments written one after the other with `|` between them.
pub open spec fn alternation(fragments: Seq<Seq<char>>) -> Seq<char>
    decreases fragments.len(),
{
    if fragments.len() == 0 {
        Seq::empty()
    } else if fragments.len() == 1 {
        fragments[0]
    } else {
        alternation(fragments.drop_last()) + seq!['|'] + fragments.last()
    }
}

/// The one pattern that stands for all fragments: `^(f1|f2|...|fn)`. The
/// leading `^` ties a match to the start of the text; nothing ties it to the
/// end.
pub open spec fn anchored_alternation(fragments: Seq<Seq<char>>) -> Seq<char> {
    seq!['^', '('] + alternation(fragments) + seq![')']
}

/// The text of the pattern opens with `^(`, closes with `)`, and holds
/// between the two nothing but the fragments with `|` between them. This
/// speaks of the text alone: that the group holds the anchor before every
/// fragment needs fragments that are expressions of their own, which is why
/// an exclusion with a fragment that is none is refused.
pub proof fn lemma_pattern_is_anchored(fragments: Seq<Seq<char>>)
    ensures
        anchored_alternation(fragments).len() == alternation(fragments).len() + 3,
        anchored_alternation(fragments)[0] == '^',
        anchored_alternation(fragments)[1] == '(',
        anchored_alternation(fragments).last() == ')',
        anchored_alternation(fragments).subrange(
            2,
            anchored_alternation(fragments).len() - 1,
        ) == alternation(fragments),
{
}

/// Whether every fragment is a valid regular expression on its own.
pub open spec fn every_fragment_compiles(fragments: Seq<Seq<char>>) -> bool {
    forall|i: int| 0 <= i < fragments.len() ==> (#[trigger] compiled(fragments[i])) is Some
}

/// What the fragments exclude: nothing where there are none, otherwise what
/// their anchored alternation matches once it is compiled. The fragments are
/// invalid if one of them is no regular expression on its own, even where
/// the text that joins them happens to be one, and also if the joined text is
/// refused.
pub open spec fn exclusion_for(fragments: Seq<Seq<char>>) -> Exclusion {
    if fragments.len() == 0 {
        Exclusion::Nothing
    } else if !every_fragment_compiles(fragments) {
        Exclusion::Invalid
    } else {
        match compiled(anchored_alternation(fragments)) {
            Some(paths) => Exclusion::Paths(paths),
            None => Exclusion::Invalid,
        }
    }
}

/// What a compiled exclusion excludes.
pub open spec fn exclusion_of(regex: Option<Regex>) -> Exclusion {
    match regex {
        Some(re) => Exclusion::Paths(regex_matched(re)),
        None => Exclusion::Nothing,
    }
}

/// The patterns of `exclude` followed by those of `extend_exclude`.
pub fn all_patterns<'a>(exclude: &Vec<&'a str>, extend_exclude: &Vec<&'a str>) -> (all: Vec<
    &'a str,
>)
    ensures
        all@ == exclude@ + extend_exclude@,
        texts(all@) == texts(exclude@) + texts(extend_exclude@),
{
    let mut all: Vec<&'a str> = Vec::new();
    let mut i: usize = 0;
    while i < exclude.len()
        invariant
            i <= exclude.len(),
            all@ == exclude@.take(i as int),
        decreases exclude.len() - i,
    {
        all.push(exclude[i]);
        i += 1;
    }
    let mut j: usize = 0;
    while j < extend_exclude.len()
        invariant
            j <= extend_exclude.len(),
            all@ == exclude@ + extend_exclude@.take(j as int),
        decreases extend_exclude.len() - j,
    {
        all.push(extend_exclude[j]);
        j += 1;
    }
    all
}

/// Writes the fragments as one anchored alternation, or nothing where there
/// is no fragment.
pub fn exclusion_pattern(excluded_patterns: &Vec<&str>) -> (pattern: Option<String>)
    ensures
        pattern is Some <==> excluded_patterns@.len() > 0,
        pattern matches Some(p) ==> p@ == anchored_alternation(texts(excluded_patterns@)),
{
    if excluded_patterns.len() == 0 {
        return None;
    }
    let ghost fragments = texts(excluded_patterns@);
    proof {
        reveal_strlit("^(");
        reveal_strlit("|");
        reveal_strlit(")");
    }
    let mut pattern = String::from_str("^(");
    pattern.append(excluded_patterns[0]);
    let mut i: usize = 1;
    while i < excluded_patterns.len()
        invariant
            1 <= i <= excluded_patterns.len(),
            fragments == texts(excluded_patterns@),
            pattern@ == seq!['^', '('] + alternation(fragments.take(i as int)),
        decreases excluded_patterns.len() - i,
    {
        proof {
            reveal_strlit("|");
            assert(fragments.take(i + 1).drop_last() == fragments.take(i as int));
        }
        pattern.append("|");
        pattern.append(excluded_patterns[i]);
        i += 1;
    }
    assert(fragments.take(i as int) == fragments);
    pattern.append(")");
    Some(pattern)
}

/// Whether every fragment is a valid regular expression on its own.
pub fn fragments_compile(excluded_patterns: &Vec<&str>) -> (valid: bool)
    ensures
        valid == every_fragment_compiles(texts(excluded_patterns@)),
{
    let mut i: usize = 0;
    while i < excluded_patterns.len()
        invariant
            i <= excluded_patterns.len(),
            every_fragment_compiles(texts(excluded_patterns@).take(i as int)),
        decreases excluded_patterns.len() - i,
    {
        let ghost fragments = texts(excluded_patterns@);
        if compile_regex(excluded_patterns[i]).is_err() {
            assert(compiled(fragments[i as int]) is None);
            return false;
        }
        assert forall|k: int| 0 <= k < i + 1 implies (#[trigger] compiled(
            fragments.take(i + 1)[k],
        )) is Some by {
            if k < i {
                assert(fragments.take(i + 1)[k] == fragments.take(i as int)[k]);
            }
        }
        i += 1;
    }
    assert(texts(excluded_patterns@).take(i as int) == texts(excluded_patterns@));
    true
}

/// Compiles the exclusion that the fragments describe.
///
/// No fragment gives no matcher, so that nothing is excluded. Otherwise each
/// fragment has to be a regular expression on its own, and the fragments are
/// then compiled as one anchored alternation. The search is refused if a
/// fragment or the alternation is not a valid regular expression.
pub fn compile_exclusion(excluded_patterns: &Vec<&str>) -> (r: Result<Option<Regex>, FindError>)
    ensures
        r is Err <==> exclusion_for(texts(excluded_patterns@)) is Invalid,
        r matches Ok(regex) ==> exclusion_of(regex) == exclusion_for(texts(excluded_patterns@)),
        r matches Err(e) ==> e == FindError::Pattern,
{
    if !fragments_compile(excluded_patterns) {
        return Err(FindError::Pattern);
    }
    match exclusion_pattern(excluded_patterns) {
        None => Ok(None),
        Some(pattern) => match compile_regex(pattern.as_str()) {
            Ok(re) => Ok(Some(re)),
            Err(_) => Err(FindError::Pattern),
        },
    }
}

} // verus!
