//! The greeting with which the node that was dialled opens a connection.

use vstd::prelude::*;

verus! {

/// How many bytes the dialling node reads as the greeting.
pub const GREETING_LIMIT: usize = 2;

/// The greeting, `hi`.
pub open spec fn greeting_bytes() -> Seq<u8> {
    seq![104u8, 105u8]
}

/// Why a dial has failed.
pub enum DialError<E> {
    /// The peer could not be reached, or its greeting could not be read.
    Transport(E),
    /// The peer has sent something else than the greeting.
    UnexpectedInit,
}

impl<E> DialError<E> {
    /// The words of the report. An error of the transport speaks for itself.
    pub fn words(&self) -> (words: Option<&'static str>)
        ensures
            self is Transport ==> words is None,
            self is UnexpectedInit ==> (words matches Some(w) && w@
                == "unexpected initialization bytes"@),
    {
        match self {
            DialError::Transport(_) => None,
            DialError::UnexpectedInit => Some("unexpected initialization bytes"),
        }
    }
}

/// What the node that was dialled sends first.
pub fn greeting() -> (bytes: Vec<u8>)
    ensures
        bytes@ == greeting_bytes(),
{
    let bytes: Vec<u8> = vec![104u8, 105u8];
    assert(bytes@ =~= greeting_bytes());
    bytes
}

/// Ends a dial: the connection stands where the peer has sent the greeting and
/// nothing else.
pub fn finish_dial<C, E>(conn: C, init: Result<Vec<u8>, E>) -> (dialled: Result<C, DialError<E>>)
    ensures
        dialled == match init {
            Err(err) => Err(DialError::Transport(err)),
            Ok(bytes) => if bytes@ == greeting_bytes() {
                Ok(conn)
            } else {
                Err(DialError::UnexpectedInit)
            },
        },
{
    match init {
        Ok(bytes) => {
            if bytes.len() == 2 && bytes[0] == 104 && bytes[1] == 105 {
                assert(bytes@ =~= greeting_bytes());
                Ok(conn)
            } else {
                Err(DialError::UnexpectedInit)
            }
        },
        Err(err) => Err(DialError::Transport(err)),
    }
}

/// The greeting spells `hi`, and fits what a dialling node reads.
pub proof fn law_greeting_spells_hi()
    ensures
        greeting_bytes().len() == "hi"@.len(),
        forall|i: int| 0 <= i < "hi"@.len() ==> greeting_bytes()[i] as char == #[trigger] "hi"@[i],
        greeting_bytes().len() <= GREETING_LIMIT,
{
    reveal_strlit("hi");
}

/// Two nodes that keep to the greeting get through to each other: a dial that
/// reads what the other side sends gives the connection itself. A dial that reads
/// anything else gives none.
pub proof fn law_greeting_is_accepted<C, E>(
    sent: Vec<u8>,
    read: Vec<u8>,
    conn: C,
    dialled: Result<C, DialError<E>>,
)
    requires
        call_ensures(greeting, (), sent),
        call_ensures(finish_dial::<C, E>, (conn, Ok(read)), dialled),
    ensures
        read@ == sent@ ==> dialled == Ok::<C, DialError<E>>(conn),
        read@ != sent@ ==> dialled is Err,
{
}

} // verus!
