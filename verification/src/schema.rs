//! The keys that the preference store has to offer, and of what type.

use vstd::prelude::*;
use vstd::string::*;

verus! {

/// The type of a stored value.
#[derive(Clone, Copy, Debug, PartialEq, Eq, Structural)]
pub enum ValueType {
    Text,
    Double,
}

/// A key of the preference store.
#[derive(Clone, Copy, Debug, PartialEq, Eq, Structural)]
pub enum Key {
    PrimaryColor,
    SecondaryColor,
    WindowOpacity,
    FontSizeFactor,
    FontName,
}

/// The keys that the store must offer, in the order in which they are looked
/// for.
pub open spec fn required_keys() -> Seq<Key> {
    seq![
        Key::PrimaryColor,
        Key::SecondaryColor,
        Key::WindowOpacity,
        Key::FontSizeFactor,
        Key::FontName,
    ]
}

/// Those of the first `count` required keys whose names are not among `found`,
/// in their order.
pub open spec fn missing_among(found: Seq<Seq<char>>, count: nat) -> Seq<Key>
    decreases count,
{
    if count == 0 {
        seq![]
    } else if found.contains(required_keys()[count - 1].name_text()) {
        missing_among(found, (count - 1) as nat)
    } else {
        missing_among(found, (count - 1) as nat).push(required_keys()[count - 1])
    }
}

/// The required keys whose names are not among `found`, in their order.
pub open spec fn missing(found: Seq<Seq<char>>) -> Seq<Key> {
    missing_among(found, required_keys().len())
}

/// The texts of `names`.
pub open spec fn texts(names: Seq<String>) -> Seq<Seq<char>> {
    names.map_values(|name: String| name@)
}

impl ValueType {
    /// The type's signature as the store writes it.
    pub open spec fn signature_text(self) -> Seq<char> {
        match self {
            ValueType::Text => "s"@,
            ValueType::Double => "d"@,
        }
    }

    /// The type's signature as the store writes it.
    pub fn signature(self) -> (text: &'static str)
        ensures
            text@ == self.signature_text(),
    {
        match self {
            ValueType::Text => "s",
            ValueType::Double => "d",
        }
    }
}

impl Key {
    /// The key's name in the store.
    pub open spec fn name_text(self) -> Seq<char> {
        match self {
            Key::PrimaryColor => "primary-color"@,
            Key::SecondaryColor => "secondary-color"@,
            Key::WindowOpacity => "window-opacity"@,
            Key::FontSizeFactor => "font-size-factor"@,
            Key::FontName => "font-name"@,
        }
    }

    /// The type of the key's value: the two colours and the font are text,
    /// the opacity and the font size factor are numbers.
    pub open spec fn expected_type(self) -> ValueType {
        match self {
            Key::PrimaryColor | Key::SecondaryColor | Key::FontName => ValueType::Text,
            Key::WindowOpacity | Key::FontSizeFactor => ValueType::Double,
        }
    }

    /// The key's name in the store.
    pub fn name(self) -> (text: &'static str)
        ensures
            text@ == self.name_text(),
    {
        match self {
            Key::PrimaryColor => "primary-color",
            Key::SecondaryColor => "secondary-color",
            Key::WindowOpacity => "window-opacity",
            Key::FontSizeFactor => "font-size-factor",
            Key::FontName => "font-name",
        }
    }

    /// The type of the key's value.
    pub fn value_type(self) -> (expected: ValueType)
        ensures
            expected == self.expected_type(),
    {
        match self {
            Key::PrimaryColor | Key::SecondaryColor | Key::FontName => ValueType::Text,
            Key::WindowOpacity | Key::FontSizeFactor => ValueType::Double,
        }
    }

    /// Whether a value whose type has the signature `signature` is of the
    /// key's type.
    pub fn accepts(self, signature: &str) -> (r: bool)
        ensures
            r == (signature@ == self.expected_type().signature_text()),
    {
        let given: String = signature.to_owned();
        let expected: String = self.value_type().signature().to_owned();
        given == expected
    }

    /// The keys that the store must offer, see [`required_keys`].
    pub fn required() -> (keys: Vec<Key>)
        ensures
            keys@ == required_keys(),
    {
        let mut keys: Vec<Key> = Vec::new();
        keys.push(Key::PrimaryColor);
        keys.push(Key::SecondaryColor);
        keys.push(Key::WindowOpacity);
        keys.push(Key::FontSizeFactor);
        keys.push(Key::FontName);
        assert(keys@ =~= required_keys());
        keys
    }
}

/// Whether `name` is among `found`.
fn is_among(found: &Vec<String>, name: &str) -> (r: bool)
    ensures
        r == texts(found@).contains(name@),
{
    let wanted: String = name.to_owned();
    let mut i: usize = 0;
    while i < found.len()
        invariant
            i <= found.len(),
            wanted@ == name@,
            forall|k: int| 0 <= k < i ==> texts(found@)[k] != name@,
        decreases found.len() - i,
    {
        if found[i] == wanted {
            assert(texts(found@)[i as int] == name@);
            return true;
        }
        i = i + 1;
    }
    false
}

/// Lists the required keys that a store offering the keys `found` lacks, see
/// [`missing`].
pub fn missing_keys(found: &Vec<String>) -> (lacking: Vec<Key>)
    ensures
        lacking@ == missing(texts(found@)),
{
    let required = Key::required();
    let mut lacking: Vec<Key> = Vec::new();
    let mut i: usize = 0;
    while i < required.len()
        invariant
            i <= required.len(),
            required@ == required_keys(),
            lacking@ == missing_among(texts(found@), i as nat),
        decreases required.len() - i,
    {
        if !is_among(found, required[i].name()) {
            lacking.push(required[i]);
        }
        i = i + 1;
    }
    lacking
}

} // verus!
