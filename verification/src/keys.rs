//! Keys of a keyboard and how they are reported to a page.
use vstd::prelude::*;
use vstd::string::StringExecFns;

use crate::text::same_text;

verus! {

/// How one key of the keyboard is reported to the page.
#[derive(Debug, Clone, Copy, PartialEq)]
pub struct KeyDefinition<'a> {
    /// The name of the key, such as `Enter` or `a`.
    pub key: &'a str,
    pub key_code: u8,
    /// The name of the key's place on the keyboard, such as `KeyA`.
    pub code: &'a str,
    /// The text that the key sends, where that is not the name of the key.
    pub text: Option<&'a str>,
}

/// The layout has no key of the name asked for.
#[derive(Debug, PartialEq)]
pub struct KeyNotFound {
    key: String,
}

impl KeyNotFound {
    /// The name that was asked for.
    pub closed spec fn key(self) -> String {
        self.key
    }

    /// The name that was asked for.
    pub fn get_key(&self) -> (r: &String)
        ensures
            *r == self.key(),
    {
        &self.key
    }

    /// The error as a line of text.
    pub fn to_string(&self) -> (r: String)
        ensures
            r@ == "Key not found: "@ + self.key()@,
    {
        "Key not found: ".to_owned().concat(self.key.as_str())
    }
}

/// True where `index` is the first place in the layout that defines `key`.
pub open spec fn defines(layout: Seq<KeyDefinition<'_>>, key: Seq<char>, index: int) -> bool {
    &&& 0 <= index < layout.len()
    &&& layout[index].key@ == key
    &&& forall|earlier: int| 0 <= earlier < index ==> (#[trigger] layout[earlier]).key@ != key
}

/// True where the layout has the key.
pub open spec fn has_key(layout: Seq<KeyDefinition<'_>>, key: Seq<char>) -> bool {
    exists|index: int| 0 <= index < layout.len() && (#[trigger] layout[index]).key@ == key
}

/// Looks a key up by its name: the first definition of the layout under that
/// name. It is an error where the layout has no such key.
pub fn get_key_definition<'a>(layout: &[KeyDefinition<'a>], key: &str) -> (r: Result<
    KeyDefinition<'a>,
    KeyNotFound,
>)
    ensures
        r is Ok <==> has_key(layout@, key@),
        r matches Ok(definition) ==> exists|index: int|
            defines(layout@, key@, index) && layout@[index] == definition,
        r matches Err(error) ==> error.key()@ == key@,
{
    let mut i: usize = 0;
    while i < layout.len()
        invariant
            i <= layout@.len(),
            forall|earlier: int| 0 <= earlier < i ==> (#[trigger] layout@[earlier]).key@ != key@,
        decreases layout@.len() - i,
    {
        if same_text(layout[i].key, key) {
            assert(defines(layout@, key@, i as int));
            return Ok(layout[i]);
        }
        i += 1;
    }
    Err(KeyNotFound { key: key.to_owned() })
}

} // verus!
