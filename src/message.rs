use vstd::prelude::*;
use vstd::string::StringExecFns;

use crate::text::{contains_text, occurs_at, text_contains};

verus! {

/// Draws below this value, out of the whole `u32` range, make a source
/// report an error: three tenths of the range, rounded up.
pub const ERROR_DRAW_LIMIT: u32 = 1288490189;

/// What a source named `name` emits when its work went well.
pub open spec fn success_text(name: Seq<char>) -> Seq<char> {
    name + ": success"@
}

/// What a source named `name` emits when its work failed.
pub open spec fn error_text(name: Seq<char>) -> Seq<char> {
    name + ": error encountered"@
}

/// A received message counts as an error exactly when its text holds "error".
pub open spec fn is_error_text(msg: Seq<char>) -> bool {
    text_contains(msg, "error"@)
}

/// Whether a draw from the whole `u32` range stands for an error outcome.
pub open spec fn draw_is_error(draw: u32) -> bool {
    draw < ERROR_DRAW_LIMIT
}

/// The message that a source named `name` emits for the outcome picked by `draw`.
pub open spec fn message_for(name: Seq<char>, draw: u32) -> Seq<char> {
    if draw_is_error(draw) {
        error_text(name)
    } else {
        success_text(name)
    }
}

/// A message that a source emits is counted as an error exactly when the
/// draw picked the error outcome, for any source whose name does not itself
/// hold "error".
pub proof fn lemma_emitted_message_classified(name: Seq<char>, draw: u32)
    requires
        !text_contains(name, "error"@),
    ensures
        is_error_text(message_for(name, draw)) == draw_is_error(draw),
{
    reveal_strlit("error");
    reveal_strlit(": success");
    reveal_strlit(": error encountered");
    let n: int = name.len() as int;
    let needle = "error"@;
    if draw_is_error(draw) {
        let m = error_text(name);
        assert(m.subrange(n + 2, n + 7) =~= needle);
        assert(occurs_at(m, needle, n + 2));
    } else {
        let m = success_text(name);
        assert forall|i: int| !occurs_at(m, needle, i) by {
            if occurs_at(m, needle, i) {
                if i + 5 <= n {
                    assert(name.subrange(i, i + 5) =~= m.subrange(i, i + 5));
                    assert(occurs_at(name, needle, i));
                } else if i <= n {
                    assert(m.subrange(i, i + 5)[n - i] == m[n]);
                } else {
                    assert(m.subrange(i, i + 5)[0] == m[i]);
                }
            }
        }
    }
}

/// Classifies a received message: `true` for an error, `false` for a success.
pub fn is_error_message(msg: &str) -> (r: bool)
    ensures
        r == is_error_text(msg@),
{
    contains_text(msg, "error")
}

/// The text of a successful outcome of the source named `name`.
pub fn success_message(name: &str) -> (r: String)
    ensures
        r@ == success_text(name@),
{
    let mut r = name.to_owned();
    r.append(": success");
    r
}

/// The text of a failed outcome of the source named `name`.
pub fn error_message(name: &str) -> (r: String)
    ensures
        r@ == error_text(name@),
{
    let mut r = name.to_owned();
    r.append(": error encountered");
    r
}

/// The message that the source named `name` emits when the random draw was `draw`.
pub fn message_for_draw(name: &str, draw: u32) -> (r: String)
    ensures
        r@ == message_for(name@, draw),
{
    if draw < ERROR_DRAW_LIMIT {
        error_message(name)
    } else {
        success_message(name)
    }
}

/// Relies on rand::random: a value drawn from the thread-local generator.
/// Nothing is known of which value comes.
pub assume_specification<T>[ rand::random::<T> ]() -> (r: T)
    where
        rand::distributions::Standard: rand::distributions::Distribution<T>,
;

/// Draws an outcome at random and returns the message that the source named
/// `name` emits for it.
pub fn random_message(name: &str) -> (r: String)
    ensures
        r@ == success_text(name@) || r@ == error_text(name@),
{
    let draw: u32 = rand::random::<u32>();
    message_for_draw(name, draw)
}

} // verus!
