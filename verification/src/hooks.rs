//! The decisions taken at the three intercepted operations.
//!
//! The surrounding process forwards every call to the genuine implementation
//! first and never changes its return value; these functions take the
//! forwarded call's outcome and decide what the hook does beyond it: whether
//! an opened stream is the target file and gets tracked, whether a read-line
//! call has just produced the credential line and the buffer is to be
//! rewritten, and when tracking ends.  Each tracked stream is an independent
//! instance of the same counter state machine.
//!
//! The transition spec functions say exactly what each step does to the
//! table of tracked streams; the proof functions at the end state the laws
//! the dispatcher obeys: a stream that is not the target passes through
//! untouched however many lines are read, substitution is due exactly at the
//! second line of a tracked stream, and distinct streams never affect one
//! another.

use vstd::prelude::*;

use crate::params::{password_line, recovered_secret_line};
use crate::state::{sat_inc, State};
use crate::substitute::replace_line;

verus! {

/// The fixed position of the credential line: the target file's layout is
/// username on the first line, password on the second.
pub const PASSWORD_LINE_NUMBER: usize = 2;

/// The configured target path as a sequence of characters, if configuration
/// is present at all.
pub open spec fn spec_target(target: &Option<String>) -> Option<Seq<char>> {
    match target {
        Some(t) => Some(t@),
        None => None,
    }
}

/// Whether an open call identifies the target file: configuration present,
/// the path exactly equal to it, and the access mode exactly read-only.
pub open spec fn target_matches(target: Option<Seq<char>>, path: Seq<char>, mode: Seq<char>) -> bool {
    &&& target is Some
    &&& path == target.unwrap()
    &&& mode == "r"@
}

/// What an intercepted open does to the table: a matching open of a real
/// stream registers it with a zeroed counter, anything else leaves the table
/// alone.
pub open spec fn open_transition(
    s: Map<usize, usize>,
    target: Option<Seq<char>>,
    path: Seq<char>,
    mode: Seq<char>,
    opened: Option<usize>,
) -> Map<usize, usize> {
    match opened {
        Some(h) => if target_matches(target, path, mode) {
            s.insert(h, 0usize)
        } else {
            s
        },
        None => s,
    }
}

/// What an intercepted read-line does to the table: a successful read from a
/// tracked stream bumps that stream's counter, anything else changes nothing.
pub open spec fn read_transition(s: Map<usize, usize>, handle: usize, read_ok: bool) -> Map<
    usize,
    usize,
> {
    if read_ok && s.contains_key(handle) {
        s.insert(handle, sat_inc(s[handle]))
    } else {
        s
    }
}

/// Whether a read-line call has just produced the credential line: the read
/// succeeded, the stream is tracked, and its counter has now reached the
/// password line.
pub open spec fn substitution_due(s: Map<usize, usize>, handle: usize, read_ok: bool) -> bool {
    read_ok && s.contains_key(handle) && sat_inc(s[handle]) == PASSWORD_LINE_NUMBER
}

/// Decide whether an open call identified the target file.
pub fn is_target_open(target: &Option<String>, path: &String, mode: &String) -> (r: bool)
    ensures
        r == target_matches(spec_target(target), path@, mode@),
{
    match target {
        Some(t) => {
            let read_only: String = "r".to_owned();
            *path == *t && *mode == read_only
        },
        None => false,
    }
}

/// The open hook's decision, taken after the genuine open returned `opened`
/// (`None` for a null result).  Registers a matching stream; returns whether
/// an entry for the same identity was overwritten, the handle-reuse signal
/// the caller logs.
pub fn hook_open(
    state: &mut State,
    target: &Option<String>,
    path: &String,
    mode: &String,
    opened: Option<usize>,
) -> (duplicate: bool)
    ensures
        final(state)@ == open_transition(old(state)@, spec_target(target), path@, mode@, opened),
        duplicate == (opened matches Some(h) && target_matches(spec_target(target), path@, mode@)
            && old(state)@.contains_key(h)),
{
    match opened {
        Some(h) => {
            if is_target_open(target, path, mode) {
                state.add(h)
            } else {
                false
            }
        },
        None => false,
    }
}

/// The read-line hook's decision, taken after the genuine read returned
/// (`read_ok` false for a null result).  Bumps a tracked stream's counter and
/// says whether the buffer now holds the line to replace.
pub fn hook_read(state: &mut State, handle: usize, read_ok: bool) -> (due: bool)
    ensures
        final(state)@ == read_transition(old(state)@, handle, read_ok),
        due == substitution_due(old(state)@, handle, read_ok),
{
    if read_ok {
        match state.inc_lines(handle) {
            Some(n) => n == PASSWORD_LINE_NUMBER,
            None => false,
        }
    } else {
        false
    }
}

/// The close hook's decision: tracking ends, whether or not the stream was
/// tracked, before the genuine close is forwarded.
pub fn hook_close(state: &mut State, handle: usize)
    ensures
        final(state)@ == old(state)@.remove(handle),
{
    state.remove(handle);
}

/// How a substitution attempt ended, for the caller's diagnostics.
pub enum ReadOutcome {
    /// The replacement line was copied into the buffer.
    Replaced,
    /// The replacement line did not fit: the buffer was left untouched, and
    /// the two lengths name the diagnostic.
    TooLong { needed: usize, available: usize },
    /// The secret could not be recovered: the buffer was left untouched.
    RecoveryFailed,
}

/// The machine identity handed to a substitution attempt, if an identity
/// file existed at all.
pub open spec fn spec_machine_id(machine_id: Option<&Vec<u8>>) -> Option<Seq<u8>> {
    match machine_id {
        Some(m) => Some(m@),
        None => None,
    }
}

/// The replacement line that recovery yields for the embedded record on this
/// machine, or `None` when there is no machine identity or recovery fails.
pub open spec fn due_line(
    nonce_hex: Seq<char>,
    ciphertext_hex: Seq<char>,
    app_id_hex: Seq<char>,
    machine_id: Option<Seq<u8>>,
) -> Option<Seq<u8>> {
    match machine_id {
        Some(m) => recovered_secret_line(nonce_hex, ciphertext_hex, app_id_hex, m),
        None => None,
    }
}

/// Recover the secret line from the embedded record and substitute it into
/// the just-filled buffer, all or nothing.
///
/// The secret is decrypted afresh on every call — the machine identity is
/// read anew by the caller and the plaintext is never cached.  On any
/// recovery failure, and when the line does not fit the declared capacity,
/// the buffer keeps the content the genuine read put there.
pub fn recover_and_substitute(
    buf: &mut Vec<u8>,
    capacity: usize,
    nonce_hex: &str,
    ciphertext_hex: &str,
    app_id_hex: &str,
    machine_id: Option<&Vec<u8>>,
) -> (r: ReadOutcome)
    requires
        capacity <= old(buf).len(),
    ensures
        ({
            let line = due_line(nonce_hex@, ciphertext_hex@, app_id_hex@, spec_machine_id(machine_id));
            match r {
                ReadOutcome::Replaced => line matches Some(l) && l.len() <= capacity && final(buf)@
                    == l + old(buf)@.skip(l.len() as int),
                ReadOutcome::TooLong { needed, available } => line matches Some(l) && l.len()
                    > capacity && needed == l.len() && available == capacity && final(buf)@ == old(
                    buf,
                )@,
                ReadOutcome::RecoveryFailed => line is None && final(buf)@ == old(buf)@,
            }
        }),
{
    let mid = match machine_id {
        Some(m) => m,
        None => {
            return ReadOutcome::RecoveryFailed;
        },
    };
    let line = match password_line(nonce_hex, ciphertext_hex, app_id_hex, mid.as_slice()) {
        Ok(l) => l,
        Err(_) => {
            return ReadOutcome::RecoveryFailed;
        },
    };
    if replace_line(buf, capacity, line.as_slice()) {
        ReadOutcome::Replaced
    } else {
        ReadOutcome::TooLong { needed: line.len(), available: capacity }
    }
}

/// How many reads of a sequence of read outcomes succeeded.
pub open spec fn count_true(oks: Seq<bool>) -> nat
    decreases oks.len(),
{
    if oks.len() == 0 {
        0nat
    } else {
        (if oks[0] {
            1nat
        } else {
            0nat
        }) + count_true(oks.skip(1))
    }
}

/// The table after a whole sequence of intercepted reads on one stream,
/// each entry saying whether the genuine read succeeded.
pub open spec fn run_reads(s: Map<usize, usize>, handle: usize, oks: Seq<bool>) -> Map<usize, usize>
    decreases oks.len(),
{
    if oks.len() == 0 {
        s
    } else {
        run_reads(read_transition(s, handle, oks[0]), handle, oks.skip(1))
    }
}

/// Law: a stream that is not tracked — any file whose open did not match the
/// target — passes through unchanged.  However many lines are read from it,
/// the table never changes and substitution is never due, so every byte the
/// genuine read produced stays as it was.
pub proof fn lemma_untracked_stream_passes_through(
    s: Map<usize, usize>,
    handle: usize,
    oks: Seq<bool>,
)
    requires
        !s.contains_key(handle),
    ensures
        run_reads(s, handle, oks) == s,
        forall|i: int|
            0 <= i < oks.len() ==> !substitution_due(
                run_reads(s, handle, oks.take(i)),
                handle,
                oks[i],
            ),
    decreases oks.len(),
{
    if oks.len() > 0 {
        assert(read_transition(s, handle, oks[0]) == s);
        lemma_untracked_stream_passes_through(s, handle, oks.skip(1));
        assert forall|i: int| 0 <= i < oks.len() implies !substitution_due(
            run_reads(s, handle, oks.take(i)),
            handle,
            oks[i],
        ) by {
            lemma_untracked_stream_passes_through(s, handle, oks.take(i));
        }
    }
}

/// The saturating total: where a tracked stream's counter stands after some
/// successful reads were added to it.
pub open spec fn sat_total(start: usize, added: nat) -> usize {
    if start + added <= usize::MAX {
        (start + added) as usize
    } else {
        usize::MAX
    }
}

/// Law: a tracked stream's counter counts exactly the successful reads,
/// saturating at the top of its range, and no read on this stream touches
/// any other stream's entry.
pub proof fn lemma_tracked_stream_counts(s: Map<usize, usize>, handle: usize, oks: Seq<bool>)
    requires
        s.contains_key(handle),
    ensures
        run_reads(s, handle, oks).contains_key(handle),
        run_reads(s, handle, oks)[handle] == sat_total(s[handle], count_true(oks)),
        forall|k: usize|
            k != handle ==> #[trigger] run_reads(s, handle, oks).contains_key(k)
                == s.contains_key(k),
        forall|k: usize|
            k != handle && s.contains_key(k) ==> #[trigger] run_reads(s, handle, oks)[k] == s[k],
    decreases oks.len(),
{
    if oks.len() > 0 {
        let s1 = read_transition(s, handle, oks[0]);
        lemma_tracked_stream_counts(s1, handle, oks.skip(1));
    }
}

/// Law: a file whose path differs from the configured target path — or any
/// file when no path is configured — passes through byte-identical.  Its open
/// does not track the stream, so however many lines are read, the table never
/// changes and substitution is never due: every buffer keeps exactly what the
/// genuine read produced.
pub proof fn lemma_nontarget_file_passes_through(
    s: Map<usize, usize>,
    target: Option<Seq<char>>,
    path: Seq<char>,
    mode: Seq<char>,
    handle: usize,
    oks: Seq<bool>,
)
    requires
        target matches Some(t) ==> path != t,
        !s.contains_key(handle),
    ensures
        open_transition(s, target, path, mode, Some(handle)) == s,
        run_reads(s, handle, oks) == s,
        forall|i: int|
            0 <= i < oks.len() ==> !substitution_due(
                run_reads(s, handle, oks.take(i)),
                handle,
                oks[i],
            ),
{
    lemma_untracked_stream_passes_through(s, handle, oks);
}

/// Law: on a stream freshly tracked by a matching open, substitution is due
/// exactly at the read that delivers the second line — the successful read
/// that follows exactly one earlier successful read — and at no other.
pub proof fn lemma_substitution_due_exactly_at_second_line(
    s: Map<usize, usize>,
    target: Option<Seq<char>>,
    path: Seq<char>,
    mode: Seq<char>,
    handle: usize,
    oks: Seq<bool>,
    i: int,
)
    requires
        target_matches(target, path, mode),
        0 <= i < oks.len(),
    ensures
        substitution_due(
            run_reads(open_transition(s, target, path, mode, Some(handle)), handle, oks.take(i)),
            handle,
            oks[i],
        ) <==> (oks[i] && count_true(oks.take(i)) == 1),
{
    let s0 = open_transition(s, target, path, mode, Some(handle));
    assert(s0 == s.insert(handle, 0usize));
    lemma_tracked_stream_counts(s0, handle, oks.take(i));
}

/// Law: distinct streams are independent.  A read on one stream neither
/// creates, changes nor removes another stream's counter, and closing one
/// stream leaves every other stream's counter as it was.
pub proof fn lemma_streams_independent(
    s: Map<usize, usize>,
    handle: usize,
    other: usize,
    read_ok: bool,
)
    requires
        handle != other,
    ensures
        read_transition(s, handle, read_ok).contains_key(other) == s.contains_key(other),
        s.contains_key(other) ==> read_transition(s, handle, read_ok)[other] == s[other],
        s.remove(handle).contains_key(other) == s.contains_key(other),
        s.contains_key(other) ==> s.remove(handle)[other] == s[other],
{
}

} // verus!
