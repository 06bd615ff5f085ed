//! The file types that a search yields.

use crate::error::FindError;
use crate::outside::{
    add_type, build_selected_types, builder_selections, new_types_builder, no_definitions,
    resolved, select_type, selecting, types_buildable, types_selections, Selection,
    TypeSelection,
};
use ignore::types::Types;
use vstd::prelude::*;

verus! {

/// The name under which Python source files are registered, `python`.
pub open spec fn python_type() -> Seq<char> {
    seq!['p', 'y', 't', 'h', 'o', 'n']
}

/// The glob of Python source files, `*.py`.
pub open spec fn python_glob() -> Seq<char> {
    seq!['*', '.', 'p', 'y']
}

/// The name under which Jupyter notebooks are registered, `jupyter`.
pub open spec fn notebook_type() -> Seq<char> {
    seq!['j', 'u', 'p', 'y', 't', 'e', 'r']
}

/// The glob of Jupyter notebooks, `*.ipynb`.
pub open spec fn notebook_glob() -> Seq<char> {
    seq!['*', '.', 'i', 'p', 'y', 'n', 'b']
}

/// The selection of Python source files.
pub open spec fn python_files() -> TypeSelection {
    TypeSelection { name: python_type(), globs: seq![python_glob()], negated: false }
}

/// The selection of Jupyter notebooks.
pub open spec fn notebooks() -> TypeSelection {
    TypeSelection { name: notebook_type(), globs: seq![notebook_glob()], negated: false }
}

/// The file types that a search yields: Python sources always, notebooks
/// unless they are ignored.
pub open spec fn selected_types(ignore_notebooks: bool) -> Seq<TypeSelection> {
    if ignore_notebooks {
        seq![python_files()]
    } else {
        seq![python_files(), notebooks()]
    }
}

/// The type definitions that are registered for a search.
pub open spec fn registered_types(ignore_notebooks: bool) -> Map<Seq<char>, Seq<Seq<char>>> {
    let python = no_definitions().insert(python_type(), seq![python_glob()]);
    if ignore_notebooks {
        python
    } else {
        python.insert(notebook_type(), seq![notebook_glob()])
    }
}

/// The selections that are made for a search, in their order.
pub open spec fn requested_types(ignore_notebooks: bool) -> Seq<Selection> {
    if ignore_notebooks {
        seq![selecting(python_type())]
    } else {
        seq![selecting(python_type()), selecting(notebook_type())]
    }
}

/// Whether the matcher of the selected file types can be built.
pub open spec fn types_available(ignore_notebooks: bool) -> bool {
    types_buildable(registered_types(ignore_notebooks), requested_types(ignore_notebooks))
}

/// The requested selections, each with the globs registered for its type, are
/// the selected file types.
pub proof fn lemma_requested_types_resolve(ignore_notebooks: bool)
    ensures
        resolved(registered_types(ignore_notebooks), requested_types(ignore_notebooks))
            == selected_types(ignore_notebooks),
{
    assert(python_type() != notebook_type());
}

/// Python sources are selected whatever the flag says; notebooks are selected
/// exactly when they are not ignored. No type is ever negated.
pub proof fn lemma_notebooks_are_gated(ignore_notebooks: bool)
    ensures
        selected_types(ignore_notebooks).contains(python_files()),
        selected_types(ignore_notebooks).contains(notebooks()) <==> !ignore_notebooks,
        forall|i: int|
            0 <= i < selected_types(ignore_notebooks).len() ==> !(#[trigger] selected_types(
                ignore_notebooks,
            )[i]).negated,
        forall|i: int, j: int|
            0 <= i < selected_types(ignore_notebooks).len() && 0 <= j < selected_types(
                ignore_notebooks,
            )[i].globs.len() && ignore_notebooks ==> #[trigger] selected_types(
                ignore_notebooks,
            )[i].globs[j] != notebook_glob(),
{
    assert(selected_types(ignore_notebooks)[0] == python_files());
}

/// Builds the matcher of the file types that a search yields.
///
/// The type `python` with the glob `*.py` is always registered and selected,
/// the type `jupyter` with the glob `*.ipynb` unless notebooks are ignored.
/// The build fails only where the matcher itself refuses these types.
pub fn build_types(ignore_notebooks: bool) -> (r: Result<Types, FindError>)
    ensures
        r is Ok <==> types_available(ignore_notebooks),
        r matches Ok(types) ==> types_selections(types) == selected_types(ignore_notebooks),
        r matches Err(e) ==> e == FindError::Build,
{
    proof {
        reveal_strlit("python");
        reveal_strlit("*.py");
        reveal_strlit("jupyter");
        reveal_strlit("*.ipynb");
        assert("python"@ =~= python_type());
        assert("*.py"@ =~= python_glob());
        assert("jupyter"@ =~= notebook_type());
        assert("*.ipynb"@ =~= notebook_glob());
    }
    let mut types_builder = new_types_builder();
    if add_type(&mut types_builder, "python", "*.py").is_err() {
        return Err(FindError::Build);
    }
    select_type(&mut types_builder, "python");

    if !ignore_notebooks {
        if add_type(&mut types_builder, "jupyter", "*.ipynb").is_err() {
            return Err(FindError::Build);
        }
        select_type(&mut types_builder, "jupyter");
    }
    proof {
        assert(builder_selections(types_builder) =~= requested_types(ignore_notebooks));
        lemma_requested_types_resolve(ignore_notebooks);
    }
    match build_selected_types(&types_builder) {
        Ok(types) => Ok(types),
        Err(_) => Err(FindError::Build),
    }
}

} // verus!
