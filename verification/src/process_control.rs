//! What a process controller tells the supervisor, whichever way it starts workers.

use vstd::prelude::*;

verus! {

/// A message that updates the supervisor on the state of a child process.
#[derive(Clone, Debug, PartialEq)]
#[allow(inconsistent_fields)]
pub enum Message {
    /// The worker `id` runs as process `pid`.
    Launched { id: String, pid: u32 },
    /// The worker `id` is ready.
    Ack { id: String },
    /// The worker `id` could not be started.
    LaunchError { id: String, pid: Option<u32>, error: String },
}

/// How many characters a worker id has.
pub open spec fn id_len() -> nat {
    36
}

/// Whether the character is a digit of a lower-case hexadecimal number.
pub open spec fn is_lower_hex(c: char) -> bool {
    ('0' <= c && c <= '9') || ('a' <= c && c <= 'f')
}

/// Whether a hyphen stands at this place of a worker id.
pub open spec fn is_hyphen_place(i: int) -> bool {
    i == 8 || i == 13 || i == 18 || i == 23
}

/// Whether the text has the form of a worker id that the supervisor makes: 36 characters,
/// hyphens at the places 8, 13, 18 and 23, and lower-case hexadecimal digits elsewhere.
pub open spec fn is_worker_id(id: Seq<char>) -> bool {
    &&& id.len() == id_len()
    &&& forall|i: int|
        0 <= i < id.len() ==> if is_hyphen_place(i) {
            #[trigger] id[i] == '-'
        } else {
            is_lower_hex(id[i])
        }
}

/// Makes a fresh worker id by `uuid::Uuid::new_v4` and `to_string`: a random UUID in the
/// hyphenated lower-case form, which is 36 characters long, with hyphens at the places 8,
/// 13, 18 and 23 and hexadecimal digits elsewhere. Which id comes back is left open.
#[verifier::external_body]
pub(crate) fn generate_id() -> (id: String)
    ensures
        is_worker_id(id@),
{
    uuid::Uuid::new_v4().to_string()
}

/// A worker id can go into a frame and into an environment as it is: it holds no line
/// end, no quote, no backslash and no zero character.
pub proof fn law_worker_id_is_plain(id: Seq<char>)
    requires
        is_worker_id(id),
    ensures
        forall|i: int|
            0 <= i < id.len() ==> (#[trigger] id[i]) != '\n' && id[i] != '"' && id[i] != '\\'
                && id[i] != '\0',
{
    assert forall|i: int| 0 <= i < id.len() implies (#[trigger] id[i]) != '\n' && id[i] != '"'
        && id[i] != '\\' && id[i] != '\0' by {
        if is_hyphen_place(i) {
            assert(id[i] == '-');
        } else {
            assert(is_lower_hex(id[i]));
        }
    }
}

} // verus!
