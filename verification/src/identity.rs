//! The identity of the machine, by which activations are bound to it.
//!
//! The identity is a text that the embedding keeps in a file under the user's
//! home directory. The client reads it from what the embedding found there,
//! or makes a new one when nothing was found; reading and writing the file is
//! the embedding's part.

use vstd::prelude::*;

verus! {

/// The directory, under the user's home directory, that holds the identity
/// file.
pub const MACHINE_ID_DIR: &'static str = ".ironlicensing";

/// The name of the identity file.
pub const MACHINE_ID_FILE: &'static str = "machine_id";

/// The directory that stands in for the home directory where the user has
/// none.
pub const HOME_FALLBACK: &'static str = ".";

/// Whether `c` is white space as Unicode defines it (the property
/// `White_Space`).
pub open spec fn is_whitespace(c: char) -> bool {
    let n = c as u32;
    ||| 0x09 <= n <= 0x0D
    ||| n == 0x20
    ||| n == 0x85
    ||| n == 0xA0
    ||| n == 0x1680
    ||| 0x2000 <= n <= 0x200A
    ||| n == 0x2028
    ||| n == 0x2029
    ||| n == 0x202F
    ||| n == 0x205F
    ||| n == 0x3000
}

/// `text` without the white space it begins with.
pub open spec fn trim_start(text: Seq<char>) -> Seq<char>
    decreases text.len(),
{
    if text.len() > 0 && is_whitespace(text.first()) {
        trim_start(text.drop_first())
    } else {
        text
    }
}

/// `text` without the white space it ends with.
pub open spec fn trim_end(text: Seq<char>) -> Seq<char>
    decreases text.len(),
{
    if text.len() > 0 && is_whitespace(text.last()) {
        trim_end(text.drop_last())
    } else {
        text
    }
}

/// `text` without the white space at either end.
pub open spec fn trimmed(text: Seq<char>) -> Seq<char> {
    trim_end(trim_start(text))
}

/// Whether `c` is a digit of lower-case hexadecimal.
pub open spec fn is_lower_hex(c: char) -> bool {
    ('0' <= c <= '9') || ('a' <= c <= 'f')
}

/// Whether a hyphen stands at position `i` of a UUID in its usual form.
pub open spec fn is_hyphen_position(i: int) -> bool {
    i == 8 || i == 13 || i == 18 || i == 23
}

/// Whether `text` is a random (version 4) UUID in its usual form: 32 digits
/// of lower-case hexadecimal in groups of 8, 4, 4, 4 and 12, with a hyphen
/// between the groups, the third group beginning with `4` and the fourth with
/// `8`, `9`, `a` or `b`.
pub open spec fn is_uuid_v4_text(text: Seq<char>) -> bool {
    &&& text.len() == 36
    &&& forall|i: int|
        0 <= i < 36 ==> if is_hyphen_position(i) {
            text[i] == '-'
        } else {
            is_lower_hex(text[i])
        }
    &&& text[14] == '4'
    &&& (text[19] == '8' || text[19] == '9' || text[19] == 'a' || text[19] == 'b')
}

/// `str::trim`: the result is `text` without the white space at either end,
/// where white space is what Unicode's property `White_Space` covers.
#[verifier::external_body]
fn trim(text: &str) -> (out: &str)
    ensures
        out@ == trimmed(text@),
{
    text.trim()
}

/// `uuid::Uuid::new_v4` and the `Display` of what it returns: a random UUID
/// of version 4, written with hyphens in lower case. Which one is a matter of
/// chance; the contract states the form that every one of them has. The call
/// panics where the operating system gives no random bytes.
#[verifier::external_body]
fn random_uuid() -> (text: String)
    ensures
        is_uuid_v4_text(text@),
{
    uuid::Uuid::new_v4().to_string()
}

/// What the embedding found out about the machine it runs on before it made
/// a client.
#[derive(Debug)]
pub struct Host {
    /// The text of the identity file, or `None` where there is no such file
    /// or it cannot be read.
    pub stored_machine_id: Option<String>,
    /// The operating system, under the name by which Rust knows it (`linux`,
    /// `macos`, `windows`, ...).
    pub os: String,
}

/// The identity of this machine.
#[derive(Debug)]
pub struct MachineIdentity {
    /// The identity itself.
    pub id: String,
    /// Whether the identity was made just now. A new identity is known to
    /// this process alone until the embedding has written it to the identity
    /// file.
    pub is_new: bool,
}

pub struct MachineIdentityView {
    pub id: Seq<char>,
    pub is_new: bool,
}

impl View for MachineIdentity {
    type V = MachineIdentityView;

    open spec fn view(&self) -> MachineIdentityView {
        MachineIdentityView { id: self.id@, is_new: self.is_new }
    }
}

impl MachineIdentityView {
    /// The identity that is read from an identity file that holds `stored`.
    pub open spec fn read_from(stored: Seq<char>) -> MachineIdentityView {
        MachineIdentityView { id: trimmed(stored), is_new: false }
    }

    /// Whether this is an identity that [`MachineIdentity::get_or_create`]
    /// may give for what was found in the identity file.
    pub open spec fn resolves(self, stored: Option<Seq<char>>) -> bool {
        match stored {
            Some(text) => self == Self::read_from(text),
            None => self.is_new && is_uuid_v4_text(self.id),
        }
    }
}

impl MachineIdentity {
    /// The identity of this machine, given what the identity file holds:
    /// `stored` is its text, or `None` where there is no such file or it
    /// cannot be read.
    ///
    /// Where there is a text, the identity is that text without the white
    /// space around it. Where there is none, the identity is a new random
    /// UUID, and it is marked as new.
    pub fn get_or_create(stored: Option<&str>) -> (identity: MachineIdentity)
        ensures
            identity@.resolves(
                match stored {
                    Some(text) => Some(text@),
                    None => None,
                },
            ),
    {
        match stored {
            Some(text) => MachineIdentity { id: trim(text).to_owned(), is_new: false },
            None => MachineIdentity { id: random_uuid(), is_new: true },
        }
    }
}

/// A text that neither begins nor ends with white space is its own trimmed
/// form.
pub proof fn lemma_trimmed_keeps_bare_text(text: Seq<char>)
    requires
        text.len() > 0 ==> !is_whitespace(text.first()) && !is_whitespace(text.last()),
    ensures
        trimmed(text) == text,
{
}

/// A trimmed text neither begins nor ends with white space.
pub proof fn lemma_trimmed_is_bare(text: Seq<char>)
    ensures
        trimmed(text).len() > 0 ==> !is_whitespace(trimmed(text).first()) && !is_whitespace(
            trimmed(text).last(),
        ),
{
    lemma_trim_start_shape(text);
    lemma_trim_end_shape(trim_start(text));
}

/// What is left after the leading white space does not begin with white
/// space.
proof fn lemma_trim_start_shape(text: Seq<char>)
    ensures
        trim_start(text).len() > 0 ==> !is_whitespace(trim_start(text).first()),
    decreases text.len(),
{
    if text.len() > 0 && is_whitespace(text.first()) {
        lemma_trim_start_shape(text.drop_first());
    }
}

/// What is left after the trailing white space does not end with white
/// space, and it begins as the whole text did.
proof fn lemma_trim_end_shape(text: Seq<char>)
    ensures
        trim_end(text).len() > 0 ==> !is_whitespace(trim_end(text).last()),
        trim_end(text).len() > 0 ==> trim_end(text).first() == text.first(),
    decreases text.len(),
{
    if text.len() > 0 && is_whitespace(text.last()) {
        lemma_trim_end_shape(text.drop_last());
    }
}

/// Reading is stable: the identity that is read from a file that holds an
/// identity read earlier is that identity again.
pub proof fn lemma_read_is_stable(stored: Seq<char>)
    ensures
        MachineIdentityView::read_from(MachineIdentityView::read_from(stored).id)
            == MachineIdentityView::read_from(stored),
{
    lemma_trimmed_is_bare(stored);
    lemma_trimmed_keeps_bare_text(trimmed(stored));
}

/// A new identity survives a restart: once it has been written to the
/// identity file as it is, the next process reads the same identity from the
/// file, and no longer as a new one.
pub proof fn lemma_new_identity_round_trip(identity: MachineIdentityView)
    requires
        identity.resolves(None),
    ensures
        MachineIdentityView::read_from(identity.id).id == identity.id,
        !MachineIdentityView::read_from(identity.id).is_new,
{
    assert(is_lower_hex(identity.id[0]));
    assert(is_lower_hex(identity.id[35]));
    lemma_trimmed_keeps_bare_text(identity.id);
}

} // verus!
