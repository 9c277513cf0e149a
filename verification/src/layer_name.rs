//! The names of layers.

use vstd::prelude::*;

verus! {

/// Whether `name` can name a layer: it has at least one character and no
/// line feed, and is none of `build`, `launch` and `store`, which name other
/// things in the directory that holds the layers.
pub open spec fn valid_layer_name(name: Seq<char>) -> bool {
    &&& name.len() > 0
    &&& !name.contains('\n')
    &&& name != "build"@
    &&& name != "launch"@
    &&& name != "store"@
}

/// Whether libcnb takes `name` for the name of a layer.
///
/// Calls `from_str` of `libcnb::data::layer::LayerName`, which matches
/// `name` against the pattern `^(?!(build|launch|store)$).+$`: one character
/// or more, none of them a line feed, up to the end of the text, the whole
/// being none of the three reserved words. This is not proved here.
#[verifier::external_body]
fn libcnb_accepts(name: &str) -> (r: bool)
    ensures
        r == valid_layer_name(name@),
{
    name.parse::<libcnb::data::layer::LayerName>().is_ok()
}

/// The name of a layer: the name of its directory, and the key under which
/// its record is kept. It is valid by `valid_layer_name`.
#[derive(Debug)]
pub struct LayerName {
    name: String,
}

impl View for LayerName {
    type V = Seq<char>;

    closed spec fn view(&self) -> Seq<char> {
        self.name@
    }
}

impl Clone for LayerName {
    fn clone(&self) -> (r: Self)
        ensures
            r@ == self@,
    {
        proof {
            use_type_invariant(self);
        }
        LayerName { name: self.name.clone() }
    }
}

impl LayerName {
    #[verifier::type_invariant]
    spec fn is_valid(&self) -> bool {
        valid_layer_name(self.name@)
    }

    /// The layer name `name`, where it is valid.
    pub fn new(name: &str) -> (r: Option<Self>)
        ensures
            r is Some == valid_layer_name(name@),
            r matches Some(layer_name) ==> layer_name@ == name@,
    {
        if libcnb_accepts(name) {
            Some(LayerName { name: name.to_owned() })
        } else {
            None
        }
    }

    /// The name as text. It is valid.
    pub fn as_str(&self) -> (r: &str)
        ensures
            r@ == self@,
            valid_layer_name(r@),
    {
        proof {
            use_type_invariant(self);
        }
        self.name.as_str()
    }
}

} // verus!
