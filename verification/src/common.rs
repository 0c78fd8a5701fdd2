//! What every backend has in common: the shading languages, the symbol
//! tree, and the interface of a validator.

use crate::compiler::Validation;
use crate::shader_error::{ShaderErrorList, ShaderErrorView};
use crate::text::same_text;
use vstd::prelude::*;

verus! {

/// A shading language that a request can name.
#[derive(Clone, Copy, Debug, PartialEq, Eq, Structural)]
pub enum ShadingLanguage {
    Wgsl,
    Hlsl,
    Glsl,
}

impl ShadingLanguage {
    /// The language that a tag names. Tags are lower case, and case counts.
    pub open spec fn of_tag(tag: Seq<char>) -> Option<ShadingLanguage> {
        if tag == "wgsl"@ {
            Some(ShadingLanguage::Wgsl)
        } else if tag == "hlsl"@ {
            Some(ShadingLanguage::Hlsl)
        } else if tag == "glsl"@ {
            Some(ShadingLanguage::Glsl)
        } else {
            None
        }
    }

    /// Reads a language tag; any text but the three tags is refused.
    pub fn from_str(input: &str) -> (r: Result<ShadingLanguage, ()>)
        ensures
            match Self::of_tag(input@) {
                Some(language) => r == Ok::<ShadingLanguage, ()>(language),
                None => r is Err,
            },
    {
        if same_text(input, "wgsl") {
            Ok(ShadingLanguage::Wgsl)
        } else if same_text(input, "hlsl") {
            Ok(ShadingLanguage::Hlsl)
        } else if same_text(input, "glsl") {
            Ok(ShadingLanguage::Glsl)
        } else {
            Err(())
        }
    }
}

/// The named top-level declarations of a shader, each list in the order of
/// declaration.
#[derive(Clone, Debug, PartialEq, Eq)]
pub struct ShaderTree {
    pub types: Vec<String>,
    pub global_variables: Vec<String>,
    pub functions: Vec<String>,
}

/// The mathematical value of a [`ShaderTree`].
pub struct ShaderTreeView {
    pub types: Seq<Seq<char>>,
    pub global_variables: Seq<Seq<char>>,
    pub functions: Seq<Seq<char>>,
}

/// The texts that a list of strings holds.
pub open spec fn names_view(names: Seq<String>) -> Seq<Seq<char>> {
    names.map_values(|s: String| s@)
}

impl View for ShaderTree {
    type V = ShaderTreeView;

    open spec fn view(&self) -> ShaderTreeView {
        ShaderTreeView {
            types: names_view(self.types@),
            global_variables: names_view(self.global_variables@),
            functions: names_view(self.functions@),
        }
    }
}

impl Default for ShaderTree {
    /// The tree without declarations.
    fn default() -> (tree: Self)
        ensures
            tree@.types.len() == 0,
            tree@.global_variables.len() == 0,
            tree@.functions.len() == 0,
            tree@ == empty_tree(),
    {
        let tree = ShaderTree {
            types: Vec::new(),
            global_variables: Vec::new(),
            functions: Vec::new(),
        };
        assert(tree@.types =~= Seq::<Seq<char>>::empty());
        assert(tree@.global_variables =~= Seq::<Seq<char>>::empty());
        assert(tree@.functions =~= Seq::<Seq<char>>::empty());
        tree
    }
}

/// The names among `entries`, in their order; entries without a name are
/// passed over.
pub open spec fn named(entries: Seq<Option<Seq<char>>>) -> Seq<Seq<char>>
    decreases entries.len(),
{
    if entries.len() == 0 {
        Seq::empty()
    } else {
        match entries.last() {
            Some(name) => named(entries.drop_last()).push(name),
            None => named(entries.drop_last()),
        }
    }
}

/// The texts that a list of optional strings holds.
pub open spec fn entries_view(entries: Seq<Option<String>>) -> Seq<Option<Seq<char>>> {
    entries.map_values(
        |e: Option<String>|
            match e {
                Some(s) => Some(s@),
                None => None,
            },
    )
}

/// Collects the names of the declarations that have one, in order.
pub fn named_entries(entries: Vec<Option<String>>) -> (names: Vec<String>)
    ensures
        names_view(names@) == named(entries_view(entries@)),
{
    let mut names: Vec<String> = Vec::new();
    let ghost all = entries_view(entries@);
    let mut i: usize = 0;
    assert(all.take(0) =~= Seq::<Option<Seq<char>>>::empty());
    assert(names_view(names@) =~= named(all.take(0)));
    while i < entries.len()
        invariant
            i <= entries.len(),
            all == entries_view(entries@),
            names_view(names@) == named(all.take(i as int)),
        decreases entries.len() - i,
    {
        let ghost before = names_view(names@);
        proof {
            assert(all.take(i + 1).drop_last() =~= all.take(i as int));
            assert(all.take(i + 1).last() == all[i as int]);
        }
        match &entries[i] {
            Some(name) => {
                let name = name.clone();
                names.push(name);
                assert(names_view(names@) =~= before.push(name@));
            },
            None => {},
        }
        i += 1;
    }
    assert(all.take(entries.len() as int) =~= all);
    names
}

/// What a validator says of the symbols of a source before any backend
/// has run.
#[derive(Debug, PartialEq, Eq)]
pub enum Listing {
    /// The result is known.
    Done(Result<ShaderTree, ShaderErrorList>),
    /// The WGSL parser has to run on the source; `Naga::tree_report` turns
    /// what it builds into the result.
    Parse,
}

/// The mathematical value of a [`Listing`].
pub enum ListingView {
    Done(Result<ShaderTreeView, Seq<ShaderErrorView>>),
    Parse,
}

impl View for Listing {
    type V = ListingView;

    open spec fn view(&self) -> ListingView {
        match *self {
            Listing::Done(Ok(tree)) => ListingView::Done(Ok(tree@)),
            Listing::Done(Err(list)) => ListingView::Done(Err(list@)),
            Listing::Parse => ListingView::Parse,
        }
    }
}

/// The symbol tree without declarations.
pub open spec fn empty_tree() -> ShaderTreeView {
    ShaderTreeView {
        types: Seq::empty(),
        global_variables: Seq::empty(),
        functions: Seq::empty(),
    }
}

/// A backend that checks shader sources of one language.
pub trait Validator {
    /// Checks a shader source as far as that goes before a backend runs:
    /// either the result, or what has to run on the source.
    fn validate_shader(&mut self, source: &str) -> Validation;

    /// Lists the named top-level declarations of a shader source as far as
    /// that goes before a backend runs: either the result, or what has to
    /// run on the source.
    fn get_shader_tree(&mut self, source: &str) -> Listing;
}

} // verus!
