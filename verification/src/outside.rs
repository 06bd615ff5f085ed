//! The outside crates as this library sees them.
//!
//! Nothing in this module is proved. Each item states what the library relies
//! on from `regex`, `path_slash`, `ignore` or `std::path`; the proofs in the
//! other modules rest on these statements.

use path_slash::PathExt;
use vstd::prelude::*;

verus! {

/// A compiled regular expression of the `regex` crate.
#[verifier::external_type_specification]
#[verifier::external_body]
pub struct ExRegex(regex::Regex);

/// The error of the `regex` crate.
#[verifier::external_type_specification]
#[verifier::external_body]
pub struct ExRegexError(regex::Error);

/// The file type matcher of the `ignore` crate.
#[verifier::external_type_specification]
#[verifier::external_body]
pub struct ExTypes(ignore::types::Types);

/// The builder of the file type matcher of the `ignore` crate.
#[verifier::external_type_specification]
#[verifier::external_body]
pub struct ExTypesBuilder(ignore::types::TypesBuilder);

/// The error of the `ignore` crate.
#[verifier::external_type_specification]
#[verifier::external_body]
pub struct ExIgnoreError(ignore::Error);

/// One selection of a builder: the name of a type, and whether the type is
/// selected or negated.
pub struct Selection {
    pub name: Seq<char>,
    pub negated: bool,
}

/// One selection of a matcher: a type with its globs in the order in which
/// they were added, and whether files of that type are selected or negated.
pub struct TypeSelection {
    pub name: Seq<char>,
    pub globs: Seq<Seq<char>>,
    pub negated: bool,
}

/// The texts in which a compiled expression finds a match: those for which
/// `regex::Regex::is_match` returns `true`.
pub uninterp spec fn regex_matched(re: regex::Regex) -> Set<Seq<char>>;

/// What `regex::Regex::new` makes of a pattern: nothing where it refuses the
/// pattern, otherwise the texts in which the compiled expression finds a
/// match.
pub uninterp spec fn compiled(pattern: Seq<char>) -> Option<Set<Seq<char>>>;

/// The text that `path_slash::PathExt::to_slash_lossy` gives for the path
/// written as `path`: the same path with `/` between its components. On a
/// given target this is a function of the text alone.
pub uninterp spec fn slash_form(path: Seq<char>) -> Seq<char>;

/// Whether the paths written as `one` and `other` are equal to `==` of
/// `std::path::Path`, which compares paths by their components and so may
/// take two different texts for the same path.
pub uninterp spec fn path_equal(one: Seq<char>, other: Seq<char>) -> bool;

/// The globs that a builder holds for each type name, in the order in which
/// they were added.
pub uninterp spec fn builder_definitions(builder: ignore::types::TypesBuilder) -> Map<
    Seq<char>,
    Seq<Seq<char>>,
>;

/// The selections that a builder holds, in the order in which they were made.
pub uninterp spec fn builder_selections(builder: ignore::types::TypesBuilder) -> Seq<Selection>;

/// Whether `ignore::types::TypesBuilder::build` succeeds for a builder with
/// these definitions and selections.
pub uninterp spec fn types_buildable(
    definitions: Map<Seq<char>, Seq<Seq<char>>>,
    selections: Seq<Selection>,
) -> bool;

/// The selections that a matcher holds, in the order in which they were made.
pub uninterp spec fn types_selections(types: ignore::types::Types) -> Seq<TypeSelection>;

/// The definitions of a builder to which no type was added.
pub open spec fn no_definitions() -> Map<Seq<char>, Seq<Seq<char>>> {
    Map::empty()
}

/// The globs recorded under `name`, none if the name is not defined.
pub open spec fn globs_of(definitions: Map<Seq<char>, Seq<Seq<char>>>, name: Seq<char>) -> Seq<
    Seq<char>,
> {
    if definitions.contains_key(name) {
        definitions[name]
    } else {
        Seq::empty()
    }
}

/// The definitions after `glob` was added to the type `name`.
pub open spec fn with_glob(
    definitions: Map<Seq<char>, Seq<Seq<char>>>,
    name: Seq<char>,
    glob: Seq<char>,
) -> Map<Seq<char>, Seq<Seq<char>>> {
    definitions.insert(name, globs_of(definitions, name).push(glob))
}

/// Each selection with the globs that the definitions hold for its type.
pub open spec fn resolved(
    definitions: Map<Seq<char>, Seq<Seq<char>>>,
    selections: Seq<Selection>,
) -> Seq<TypeSelection> {
    selections.map_values(
        |s: Selection|
            TypeSelection { name: s.name, globs: globs_of(definitions, s.name), negated: s.negated },
    )
}

/// The selection that `select` makes of the type `name`.
pub open spec fn selecting(name: Seq<char>) -> Selection {
    Selection { name, negated: false }
}

/// The name that stands for every defined type.
pub open spec fn every_type() -> Seq<char> {
    seq!['a', 'l', 'l']
}

/// An ASCII letter or digit.
pub open spec fn is_ascii_letter_or_digit(c: char) -> bool {
    ('a' <= c && c <= 'z') || ('A' <= c && c <= 'Z') || ('0' <= c && c <= '9')
}

/// A type name made of ASCII letters and digits, other than the reserved
/// `all`.
pub open spec fn is_plain_type_name(name: Seq<char>) -> bool {
    &&& name != every_type()
    &&& forall|i: int| 0 <= i < name.len() ==> is_ascii_letter_or_digit(#[trigger] name[i])
}

/// `regex::Regex::new`: compiles `pattern`. Whether it succeeds, and what the
/// expression then matches, depends on the pattern alone.
#[verifier::external_body]
pub(crate) fn compile_regex(pattern: &str) -> (r: Result<regex::Regex, regex::Error>)
    ensures
        r matches Ok(re) ==> compiled(pattern@) == Some(regex_matched(re)),
        r is Err ==> compiled(pattern@) is None,
{
    regex::Regex::new(pattern)
}

/// `regex::Regex::is_match`: whether the expression finds a match anywhere in
/// `haystack`.
#[verifier::external_body]
pub(crate) fn regex_matches(re: &regex::Regex, haystack: &str) -> (found: bool)
    ensures
        found == regex_matched(*re).contains(haystack@),
{
    re.is_match(haystack)
}

/// `path_slash::PathExt::to_slash_lossy` on the path written as `path`.
#[verifier::external_body]
pub(crate) fn to_slash(path: &str) -> (slashed: String)
    ensures
        slashed@ == slash_form(path@),
{
    std::path::Path::new(path).to_slash_lossy().into_owned()
}

/// `==` of `std::path::Path` on the paths written as `one` and `other`. A
/// path equals itself, so the same text twice is the same path.
#[verifier::external_body]
pub(crate) fn paths_equal(one: &str, other: &str) -> (same: bool)
    ensures
        same == path_equal(one@, other@),
        one@ == other@ ==> same,
{
    std::path::Path::new(one) == std::path::Path::new(other)
}

/// `ignore::types::TypesBuilder::new`: a builder without definitions and
/// without selections.
#[verifier::external_body]
pub(crate) fn new_types_builder() -> (builder: ignore::types::TypesBuilder)
    ensures
        builder_definitions(builder) == no_definitions(),
        builder_selections(builder).len() == 0,
{
    ignore::types::TypesBuilder::new()
}

/// `ignore::types::TypesBuilder::add`: records `glob` as the last glob of the
/// type `name`. The name `all` is refused, a name of ASCII letters and digits
/// is accepted, and a refusal leaves the definitions as they were. The
/// selections stay as they are.
#[verifier::external_body]
pub(crate) fn add_type(builder: &mut ignore::types::TypesBuilder, name: &str, glob: &str) -> (r:
    Result<(), ignore::Error>)
    ensures
        builder_selections(*final(builder)) == builder_selections(*old(builder)),
        is_plain_type_name(name@) ==> r is Ok,
        name@ == every_type() ==> r is Err,
        r is Ok ==> builder_definitions(*final(builder)) == with_glob(
            builder_definitions(*old(builder)),
            name@,
            glob@,
        ),
        r is Err ==> builder_definitions(*final(builder)) == builder_definitions(*old(builder)),
{
    builder.add(name, glob)
}

/// `ignore::types::TypesBuilder::select`: selects the type `name` after the
/// selections made so far. The definitions stay as they are. Nothing is said
/// of the name `all`, which selects every defined type in no fixed order.
#[verifier::external_body]
pub(crate) fn select_type(builder: &mut ignore::types::TypesBuilder, name: &str)
    ensures
        builder_definitions(*final(builder)) == builder_definitions(*old(builder)),
        name@ != every_type() ==> builder_selections(*final(builder)) == builder_selections(
            *old(builder),
        ).push(selecting(name@)),
{
    builder.select(name);
}

/// `ignore::types::TypesBuilder::build`: makes the matcher of the builder's
/// selections. Whether it succeeds depends on the definitions and selections
/// alone; the matcher then holds each selection with the globs of its type.
#[verifier::external_body]
pub(crate) fn build_selected_types(builder: &ignore::types::TypesBuilder) -> (r: Result<
    ignore::types::Types,
    ignore::Error,
>)
    ensures
        r is Ok <==> types_buildable(builder_definitions(*builder), builder_selections(*builder)),
        r matches Ok(types) ==> types_selections(types) == resolved(
            builder_definitions(*builder),
            builder_selections(*builder),
        ),
{
    builder.build()
}

} // verus!
