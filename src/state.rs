use vstd::prelude::*;
use vstd::std_specs::iter::IteratorSpec;

verus! {

/// Number of character slots in a state's display name.
pub const NAME_LEN: usize = 32;

/// Identifier of the sentinel state that stands for "no state entered yet".
pub const UNKNOWN_ID: u8 = 0xFF;

/// The name buffer that `name` gives: its first `NAME_LEN` characters, and
/// spaces in the slots it does not reach.
pub open spec fn fitted_name(name: Seq<char>) -> Seq<char> {
    Seq::new(NAME_LEN as nat, |i: int| if i < name.len() { name[i] } else { ' ' })
}

/// The text of the sentinel state's name.
pub open spec fn unknown_text() -> Seq<char> {
    seq!['U', 'N', 'K', 'N', 'O', 'W', 'N']
}

/// An immutable state value: a numeric identifier and a space-padded name.
#[derive(Debug, Clone, Copy)]
pub struct State {
    pub(crate) id: u8,
    pub(crate) name: [char; 32],
}

impl State {
    /// The identifier, in specifications.
    pub closed spec fn spec_id(&self) -> u8 {
        self.id
    }

    /// The padded name buffer, in specifications.
    pub closed spec fn spec_name(&self) -> Seq<char> {
        self.name@
    }

    /// Creates a state. Names longer than `NAME_LEN` characters are truncated;
    /// shorter ones are padded with spaces.
    pub fn new(id: u8, name: &str) -> (r: State)
        ensures
            r.spec_id() == id,
            r.spec_name() == fitted_name(name@),
    {
        let mut name_array: [char; 32] = [' '; 32];
        let mut chars = name.chars();
        let mut i: usize = 0;
        while i < NAME_LEN
            invariant
                i <= NAME_LEN,
                i <= name@.len(),
                chars.remaining() == name@.skip(i as int),
                name_array@.len() == NAME_LEN,
                forall|j: int| 0 <= j < i ==> name_array@[j] == name@[j],
                forall|j: int| i <= j < NAME_LEN ==> name_array@[j] == ' ',
            ensures
                i == NAME_LEN || i == name@.len(),
                name_array@.len() == NAME_LEN,
                forall|j: int| 0 <= j < i ==> name_array@[j] == name@[j],
                forall|j: int| i <= j < NAME_LEN ==> name_array@[j] == ' ',
            decreases NAME_LEN - i,
        {
            match chars.next() {
                Some(c) => {
                    name_array[i] = c;
                    i = i + 1;
                },
                None => {
                    break;
                },
            }
        }
        let r = State { id, name: name_array };
        assert(r.name@ =~= fitted_name(name@));
        r
    }

    /// The sentinel state: identifier `UNKNOWN_ID` and name "UNKNOWN".
    pub fn unknown() -> (r: State)
        ensures
            r.spec_id() == UNKNOWN_ID,
            r.spec_name() == fitted_name(unknown_text()),
    {
        let r = State {
            id: UNKNOWN_ID,
            name: [
                'U', 'N', 'K', 'N', 'O', 'W', 'N', ' ', ' ', ' ', ' ', ' ', ' ', ' ', ' ', ' ',
                ' ', ' ', ' ', ' ', ' ', ' ', ' ', ' ', ' ', ' ', ' ', ' ', ' ', ' ', ' ', ' ',
            ],
        };
        assert(r.name@ =~= fitted_name(unknown_text()));
        r
    }

    /// Whether this is the sentinel value.
    pub open spec fn is_unknown(&self) -> bool {
        self.spec_id() == UNKNOWN_ID && self.spec_name() == fitted_name(unknown_text())
    }

    /// Returns the identifier.
    #[verifier::when_used_as_spec(spec_id)]
    pub fn id(&self) -> (r: u8)
        ensures
            r == self.spec_id(),
    {
        self.id
    }

    /// Returns the padded name buffer.
    pub fn name(&self) -> (r: &[char; 32])
        ensures
            r@ == self.spec_name(),
    {
        &self.name
    }
}

impl PartialEq for State {
    /// States are equal when both identifier and name match.
    fn eq(&self, other: &State) -> (r: bool) {
        if self.id != other.id {
            return false;
        }
        let mut i: usize = 0;
        while i < NAME_LEN
            invariant
                i <= NAME_LEN,
                self.name@.len() == NAME_LEN,
                other.name@.len() == NAME_LEN,
                forall|j: int| 0 <= j < i ==> self.name@[j] == other.name@[j],
            decreases NAME_LEN - i,
        {
            if self.name[i] != other.name[i] {
                return false;
            }
            i = i + 1;
        }
        assert(self.name@ =~= other.name@);
        true
    }
}

impl vstd::std_specs::cmp::PartialEqSpecImpl for State {
    open spec fn obeys_eq_spec() -> bool {
        true
    }

    open spec fn eq_spec(&self, other: &State) -> bool {
        self.spec_id() == other.spec_id() && self.spec_name() == other.spec_name()
    }
}

} // verus!
