//! The proving backends that a request can choose among.

use vstd::prelude::*;
use vstd::string::StringExecFns;

verus! {

/// A proving backend.
#[derive(Clone, Copy, Debug, PartialEq, Eq, Structural)]
pub enum Variant {
    /// Proofs that are checked off chain only.
    Core,
    /// Proofs that a chain can verify, in the PLONK system.
    Plonk,
    /// Proofs that a chain can verify, in the Groth16 system.
    Groth16,
}

/// A backend name that stands for no backend.
#[derive(Debug, PartialEq, Eq)]
pub struct UnknownVariant {
    pub name: String,
}

/// The backend that a name stands for. No name stands for `Groth16`.
pub open spec fn selection(name: Option<Seq<char>>) -> Option<Variant> {
    match name {
        None => Some(Variant::Groth16),
        Some(text) => if text == "core"@ {
            Some(Variant::Core)
        } else if text == "plonk"@ {
            Some(Variant::Plonk)
        } else if text == "groth16"@ {
            Some(Variant::Groth16)
        } else {
            None
        },
    }
}

/// A request's optional backend name as plain text.
pub open spec fn name_chars(name: Option<&str>) -> Option<Seq<char>> {
    match name {
        None => None,
        Some(text) => Some(text@),
    }
}

impl Variant {
    /// The backend's name in lower case, as requests and file names spell
    /// it.
    pub open spec fn name_spec(self) -> Seq<char> {
        match self {
            Variant::Core => "core"@,
            Variant::Plonk => "plonk"@,
            Variant::Groth16 => "groth16"@,
        }
    }

    /// Whether the backend's proofs come with bytes that a chain can verify.
    pub open spec fn is_chain_verifiable_spec(self) -> bool {
        self != Variant::Core
    }

    /// The name of the file that holds the backend's fixture.
    pub open spec fn fixture_file_name_spec(self) -> Seq<char> {
        self.name_spec() + "-bucket-fixture.json"@
    }

    /// Maps a requested name to a backend. An absent name selects
    /// `Groth16`; a name other than `core`, `plonk` and `groth16` is
    /// refused and handed back.
    pub fn select(name: Option<&str>) -> (result: Result<Variant, UnknownVariant>)
        ensures
            (match result {
                Ok(variant) => selection(name_chars(name)) == Some(variant),
                Err(unknown) => selection(name_chars(name)) is None && name_chars(name) == Some(
                    unknown.name@,
                ),
            }),
    {
        match name {
            None => Ok(Variant::Groth16),
            Some(text) => {
                let given = String::from_str(text);
                if given == String::from_str("core") {
                    Ok(Variant::Core)
                } else if given == String::from_str("plonk") {
                    Ok(Variant::Plonk)
                } else if given == String::from_str("groth16") {
                    Ok(Variant::Groth16)
                } else {
                    Err(UnknownVariant { name: given })
                }
            },
        }
    }

    /// The backend's name in lower case.
    pub fn name(self) -> (text: &'static str)
        ensures
            text@ == self.name_spec(),
    {
        match self {
            Variant::Core => "core",
            Variant::Plonk => "plonk",
            Variant::Groth16 => "groth16",
        }
    }

    /// Whether the backend's proofs come with bytes that a chain can verify.
    #[verifier::when_used_as_spec(is_chain_verifiable_spec)]
    pub fn is_chain_verifiable(self) -> (yes: bool)
        ensures
            yes == self.is_chain_verifiable_spec(),
    {
        match self {
            Variant::Core => false,
            Variant::Plonk => true,
            Variant::Groth16 => true,
        }
    }

    /// The name of the file that holds the backend's fixture. A later
    /// fixture of the same backend takes the place of an earlier one.
    pub fn fixture_file_name(self) -> (file_name: String)
        ensures
            file_name@ == self.fixture_file_name_spec(),
    {
        String::from_str(self.name()).concat("-bucket-fixture.json")
    }
}

/// The three names are told apart, each selects its own backend, and a
/// backend's name selects that backend.
pub proof fn names_select_their_variants(variant: Variant)
    ensures
        selection(Some(variant.name_spec())) == Some(variant),
        selection(Some("core"@)) == Some(Variant::Core),
        selection(Some("plonk"@)) == Some(Variant::Plonk),
        selection(Some("groth16"@)) == Some(Variant::Groth16),
        selection(None) == Some(Variant::Groth16),
{
    reveal_strlit("core");
    reveal_strlit("plonk");
    reveal_strlit("groth16");
    assert("core"@.len() == 4 && "plonk"@.len() == 5 && "groth16"@.len() == 7);
}

} // verus!
