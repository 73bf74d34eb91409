//! The table that the game event enum is generated from: each registry name of the
//! `game_event.json` list with the name of its enum variant.
use vstd::prelude::*;

verus! {

#[verifier::external_type_specification]
#[verifier::external_body]
pub struct ExJsonError(serde_json::Error);

/// The array of strings that `serde_json` reads from a JSON text, `None` when the text is not
/// one.
pub uninterp spec fn json_string_array(text: Seq<char>) -> Option<Seq<Seq<char>>>;

/// The upper camel case form that `heck` gives a name.
pub uninterp spec fn pascal_case(name: Seq<char>) -> Seq<char>;

/// `serde_json::from_str::<Vec<String>>`: the contract claims that the result is `Ok` exactly
/// when the text is a JSON array of strings, holding those strings, and that both depend on the
/// text alone. What counts as such an array is left unsaid.
#[verifier::external_body]
fn parse_string_array(text: &str) -> (r: Result<Vec<String>, serde_json::Error>)
    ensures
        match r {
            Ok(v) => json_string_array(text@) == Some(v.deep_view()),
            Err(_) => json_string_array(text@) is None,
        },
{
    serde_json::from_str(text)
}

/// `heck::ToPascalCase::to_pascal_case` on a `str`: the contract claims only that the result
/// depends on the name alone; how words are split and capitalised is left unsaid.
#[verifier::external_body]
fn to_pascal_case(name: &str) -> (r: String)
    ensures
        r@ == pascal_case(name@),
{
    heck::ToPascalCase::to_pascal_case(name)
}

/// Why a registry list could not be read.
#[derive(Clone, Copy, PartialEq, Eq, Structural, Debug)]
pub enum RegistryError {
    /// The text is not a JSON array of strings.
    InvalidJson,
}

/// One entry of the table: the enum variant and the registry name it stands for.
pub struct RegistryEntry {
    pub variant: String,
    pub name: String,
}

/// `entries` pairs each of `names`, in order, with its upper camel case form.
pub open spec fn entries_for(entries: Seq<RegistryEntry>, names: Seq<Seq<char>>) -> bool {
    &&& entries.len() == names.len()
    &&& forall|i: int|
        0 <= i < names.len() ==> {
            &&& (#[trigger] entries[i]).name@ == names[i]
            &&& entries[i].variant@ == pascal_case(names[i])
        }
}

/// The table for a list of registry names.
pub fn registry_entries(names: &Vec<String>) -> (r: Vec<RegistryEntry>)
    ensures
        entries_for(r@, names.deep_view()),
{
    let mut r: Vec<RegistryEntry> = Vec::new();
    let mut i: usize = 0;
    while i < names.len()
        invariant
            i <= names@.len(),
            entries_for(r@, names.deep_view().take(i as int)),
        decreases names@.len() - i,
    {
        let name = names[i].clone();
        let variant = to_pascal_case(names[i].as_str());
        r.push(RegistryEntry { variant, name });
        assert(names.deep_view().take(i + 1) =~= names.deep_view().take(i as int).push(
            names@[i as int]@,
        ));
        i = i + 1;
    }
    assert(names.deep_view().take(i as int) =~= names.deep_view());
    r
}

/// The table for the registry list in a JSON text: an error when the text is not a JSON array
/// of strings.
pub fn game_event_entries(json: &str) -> (r: Result<Vec<RegistryEntry>, RegistryError>)
    ensures
        match json_string_array(json@) {
            Some(names) => r matches Ok(entries) && entries_for(entries@, names),
            None => r == Err::<Vec<RegistryEntry>, RegistryError>(RegistryError::InvalidJson),
        },
{
    match parse_string_array(json) {
        Ok(names) => Ok(registry_entries(&names)),
        Err(_) => Err(RegistryError::InvalidJson),
    }
}

} // verus!
