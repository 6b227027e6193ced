//! What holds of times and of texts.

use crate::entry::OperationJournalEntryView;
use crate::instants::{text_instant, Instant};
use crate::journal_revision::decimal;
use crate::journal_temporal::{entry_assessment, entry_times, times_admitted, times_error};
use crate::rulings::{ruled_evidence, ruled_id, SanitizedEvidenceView, SanitizedIdView};
use crate::temporal::{
    all_issues, assessment, is_current, suppresses, time_after, BoundedTemporalLoadIssueCounts,
    BoundedTemporalRecordView, ClockView,
};
use crate::text::{
    begins_with, is_alphanumeric, is_digit, is_letter, is_lower_hex, is_white_space, lowered,
    occurs_in, stands_at, text_less, trimmed, trimmed_end, trimmed_start,
};
use crate::tokens::{
    drive_path_at, holds_drive_path, holds_secret_run, is_safe_token, is_token_char, jwt_like,
    secret_run, token_looks_sensitive,
};
use vstd::prelude::*;

verus! {

/// Whether one reading of a clock is later than another.
pub open spec fn is_later(secs: int, nanos: int, than_secs: int, than_nanos: int) -> bool {
    secs > than_secs || (secs == than_secs && nanos > than_nanos)
}

/// The present is as much after the start as has passed.
pub proof fn present_is_the_start_and_what_has_passed(
    start: Instant,
    elapsed: (u64, u32),
)
    requires
        start.nanos < 1_000_000_000,
        elapsed.1 < 1_000_000_000,
    ensures
        ({
            let now = time_after(start, elapsed);
            &&& 0 <= now.nanos < 1_000_000_000
            &&& now.secs * 1_000_000_000 + now.nanos == (start.secs + elapsed.0) * 1_000_000_000
                + start.nanos + elapsed.1
        }),
{
}

/// A record whose times cannot be read is malformed. One that was observed more than five minutes from
/// now is refused, and so is one that suppresses for more than a day after its last observation. What
/// suppresses nothing, what is pending and what suppresses beyond the present is in force. The rest has
/// expired.
pub proof fn records_are_in_force_until_their_time(
    now: ClockView,
    record: BoundedTemporalRecordView,
)
    ensures
        ({
            let answer = assessment(now, record);
            let first = text_instant(record.first_observed_at);
            let last = text_instant(record.last_observed_at);
            let bounded = record.suppression_until is Some;
            let until = text_instant(record.suppression_until->0);
            let readable = first is Some && last is Some && (bounded ==> until is Some);
            let early = is_later(
                first->0.secs as int,
                first->0.nanos as int,
                now.secs + 300,
                now.nanos,
            ) || is_later(last->0.secs as int, last->0.nanos as int, now.secs + 300, now.nanos);
            let long = bounded && is_later(
                until->0.secs as int,
                until->0.nanos as int,
                last->0.secs + 86_400,
                last->0.nanos as int,
            );
            let ahead = bounded && is_later(
                until->0.secs as int,
                until->0.nanos as int,
                now.secs,
                now.nanos,
            );
            if !readable {
                answer is Err && answer->Err_0 is MalformedTimestamp
            } else if early {
                answer is Err && answer->Err_0 is ObservationTooFarInFuture
            } else if long {
                answer is Err && answer->Err_0 is SuppressionWindowOutOfBounds
            } else {
                &&& answer is Ok
                &&& answer->Ok_0 is Current <==> !bounded || record.pending || ahead
                &&& answer->Ok_0 is Expired <==> bounded && !record.pending && !ahead
                &&& suppresses(now, record) <==> ahead
                &&& is_current(now, record) <==> answer->Ok_0 is Current
            }
        }),
        assessment(now, record) is Err ==> !suppresses(
            now,
            record,
        ) && !is_current(now, record),
{
}

/// The times of a journal are those of the end of its reconciliation, else of its repair, else of the
/// attempt at either. An attempt and a publication that is pending do not expire. A journal with none
/// of these is always in force.
pub proof fn journal_times_are_those_of_its_repair(
    now: ClockView,
    entry: OperationJournalEntryView,
)
    ensures
        ({
            let times = entry_times(entry);
            let ended = entry.reconciliation_terminal;
            let repaired = entry.persisted_state_repair_terminal;
            let attempt = entry.reconciliation_attempt;
            let plan = entry.persisted_state_repair_attempt;
            &&& ended is Some ==> times is Some && observed_then(
                times->0,
                ended->0.attempt.observed_at,
                ended->0.attempt.suppression_until,
                ended->0.version_bundle_publication is Some
                    && ended->0.version_bundle_publication->0.pending,
            )
            &&& ended is None && repaired is Some ==> times is Some && observed_then(
                times->0,
                repaired->0.attempt.observed_at,
                repaired->0.suppression_until,
                false,
            )
            &&& ended is None && repaired is None && attempt is Some ==> times is Some
                && observed_then(
                times->0,
                attempt->0.observed_at,
                attempt->0.suppression_until,
                true,
            )
            &&& ended is None && repaired is None && attempt is None && plan is Some ==> times
                is Some && observed_then(
                times->0,
                plan->0.observed_at,
                plan->0.suppression_until,
                true,
            )
            &&& ended is None && repaired is None && attempt is None && plan is None ==> times
                is None
            &&& times is Some ==> entry_assessment(now, entry)
                == assessment(now, times->0)
            &&& times is None ==> {
                &&& entry_assessment(now, entry) is Ok
                &&& entry_assessment(now, entry)->Ok_0 is Current
            }
        }),
{
}

/// Whether times are those of one observation that suppresses until a time.
pub open spec fn observed_then(
    times: BoundedTemporalRecordView,
    observed_at: Seq<char>,
    until: Seq<char>,
    pending: bool,
) -> bool {
    &&& times.first_observed_at == observed_at
    &&& times.last_observed_at == observed_at
    &&& times.suppression_until == Some(until)
    &&& times.pending == pending
}

/// A journal may be written where its times are in force, or have expired and may have. What is wrong
/// is said of a repair of a record where it is one, and of a reconciliation in any other case.
pub proof fn expired_journals_are_written_only_late(
    now: ClockView,
    entry: OperationJournalEntryView,
    late: bool,
)
    ensures
        ({
            let times = entry_assessment(now, entry);
            let error = times_error(entry);
            &&& times_admitted(now, entry, late) <==> times is Ok && (
            times->Ok_0 is Current || late)
            &&& error is InvalidPersistedStateRepair <==> entry.persisted_state_repair_attempt
                is Some
            &&& error is InvalidReconciliationTerminal <==> entry.persisted_state_repair_attempt
                is None
        }),
{
}

proof fn start_is_cut(s: Seq<char>) -> (at: int)
    ensures
        0 <= at <= s.len(),
        trimmed_start(s) == s.subrange(at, s.len() as int),
        forall|i: int| 0 <= i < at ==> is_white_space(#[trigger] s[i]),
        at < s.len() ==> !is_white_space(s[at]),
    decreases s.len(),
{
    if s.len() > 0 && is_white_space(s[0]) {
        let rest = s.subrange(1, s.len() as int);
        let k = start_is_cut(rest);
        let at = k + 1;
        assert(trimmed_start(s) =~= s.subrange(at, s.len() as int));
        assert forall|i: int| 0 <= i < at implies is_white_space(#[trigger] s[i]) by {
            if i > 0 {
                assert(rest[i - 1] == s[i]);
            }
        }
        if at < s.len() {
            assert(rest[k] == s[at]);
        }
        at
    } else {
        assert(s.subrange(0, s.len() as int) =~= s);
        0
    }
}

proof fn end_is_cut(s: Seq<char>) -> (to: int)
    ensures
        0 <= to <= s.len(),
        trimmed_end(s) == s.subrange(0, to),
        forall|i: int| to <= i < s.len() ==> is_white_space(#[trigger] s[i]),
        to > 0 ==> !is_white_space(s[to - 1]),
    decreases s.len(),
{
    if s.len() > 0 && is_white_space(s[s.len() - 1]) {
        let rest = s.subrange(0, s.len() - 1);
        let to = end_is_cut(rest);
        assert(trimmed_end(s) =~= s.subrange(0, to));
        assert forall|i: int| to <= i < s.len() implies is_white_space(
            #[trigger] s[i],
        ) by {
            if i < s.len() - 1 {
                assert(rest[i] == s[i]);
            }
        }
        if to > 0 {
            assert(rest[to - 1] == s[to - 1]);
        }
        to
    } else {
        assert(s.subrange(0, s.len() as int) =~= s);
        s.len() as int
    }
}

/// A trimmed text neither begins nor ends with white space, and only white space was cut off at either
/// end.
pub proof fn trimming_cuts_white_space_only(s: Seq<char>)
    ensures
        ({
            let t = trimmed(s);
            &&& t.len() > 0 ==> !is_white_space(t[0]) && !is_white_space(
                t[t.len() - 1],
            )
            &&& exists|a: int, b: int|
                {
                    &&& 0 <= a <= b <= s.len()
                    &&& t == #[trigger] s.subrange(a, b)
                    &&& forall|i: int|
                        (0 <= i < a || b <= i < s.len()) ==> is_white_space(
                            #[trigger] s[i],
                        )
                }
        }),
{
    let a = start_is_cut(s);
    let u = trimmed_start(s);
    let to = end_is_cut(u);
    let t = trimmed(s);
    let b = a + to;
    assert(t =~= s.subrange(a, b));
    if t.len() > 0 {
        assert(t[0] == u[0] && u[0] == s[a]);
        assert(t[t.len() - 1] == u[to - 1]);
    }
    assert forall|i: int| (0 <= i < a || b <= i < s.len()) implies is_white_space(
        #[trigger] s[i],
    ) by {
        if i >= b {
            assert(u[i - a] == s[i]);
        }
    }
}

/// A text comes before another where it is the beginning of it, or has the smaller character where they
/// first differ.
pub proof fn texts_are_ordered_by_their_first_difference(a: Seq<char>, b: Seq<char>, n: int)
    requires
        0 <= n <= a.len(),
        n <= b.len(),
        forall|i: int| 0 <= i < n ==> #[trigger] a[i] == b[i],
    ensures
        n < a.len() && n < b.len() && a[n] != b[n] ==> (text_less(a, b) <==> a[n]
            < b[n]),
        n == a.len() ==> (text_less(a, b) <==> n < b.len()),
        n == b.len() ==> !text_less(a, b),
    decreases n,
{
    if n > 0 {
        let x = a.subrange(1, a.len() as int);
        let y = b.subrange(1, b.len() as int);
        assert(a[0] == b[0]);
        assert forall|i: int| 0 <= i < n - 1 implies #[trigger] x[i] == y[i] by {
            assert(a[i + 1] == b[i + 1]);
        }
        texts_are_ordered_by_their_first_difference(x, y, n - 1);
        if n < a.len() && n < b.len() {
            assert(x[n - 1] == a[n] && y[n - 1] == b[n]);
        }
    }
}

/// To lower a text changes its capitals to their small letters and nothing else.
pub proof fn lowering_changes_capitals_only(s: Seq<char>, i: int)
    requires
        0 <= i < s.len(),
    ensures
        lowered(s).len() == s.len(),
        !('A' <= s[i] && s[i] <= 'Z') ==> lowered(s)[i] == s[i],
        'A' <= s[i] && s[i] <= 'Z' ==> lowered(s)[i] as u32 == s[i] as u32 + 32,
{
}

/// The first ruling on a text is the one that counts. Where there is none, the fallback is taken.
pub proof fn first_ruling_counts(
    rulings: Seq<SanitizedIdView>,
    text: Seq<char>,
    fallback: Seq<char>,
    at: int,
)
    requires
        0 <= at <= rulings.len(),
        forall|i: int|
            0 <= i < at ==> !((#[trigger] rulings[i]).text == text && rulings[i].fallback
                == fallback),
        at < rulings.len() ==> rulings[at].text == text && rulings[at].fallback == fallback,
    ensures
        at < rulings.len() ==> ruled_id(rulings, text, fallback)
            == rulings[at].result,
        at == rulings.len() ==> ruled_id(rulings, text, fallback) == fallback,
    decreases rulings.len(),
{
    if rulings.len() > 0 && at > 0 {
        let rest = rulings.subrange(1, rulings.len() as int);
        assert(!(rulings[0].text == text && rulings[0].fallback == fallback));
        assert forall|i: int| 0 <= i < at - 1 implies !((#[trigger] rest[i]).text == text
            && rest[i].fallback == fallback) by {
            assert(rest[i] == rulings[i + 1]);
        }
        if at < rulings.len() {
            assert(rest[at - 1] == rulings[at]);
        }
        first_ruling_counts(rest, text, fallback, at - 1);
    }
}

/// The first ruling on evidence is the one that counts. Where there is none, nothing may be shown.
pub proof fn first_ruling_on_evidence_counts(
    rulings: Seq<SanitizedEvidenceView>,
    text: Seq<char>,
    max_chars: usize,
    at: int,
)
    requires
        0 <= at <= rulings.len(),
        forall|i: int|
            0 <= i < at ==> !((#[trigger] rulings[i]).text == text && rulings[i].max_chars
                == max_chars),
        at < rulings.len() ==> rulings[at].text == text && rulings[at].max_chars == max_chars,
    ensures
        at < rulings.len() ==> ruled_evidence(rulings, text, max_chars)
            == rulings[at].result,
        at == rulings.len() ==> ruled_evidence(rulings, text, max_chars) is None,
    decreases rulings.len(),
{
    if rulings.len() > 0 && at > 0 {
        let rest = rulings.subrange(1, rulings.len() as int);
        assert(!(rulings[0].text == text && rulings[0].max_chars == max_chars));
        assert forall|i: int| 0 <= i < at - 1 implies !((#[trigger] rest[i]).text == text
            && rest[i].max_chars == max_chars) by {
            assert(rest[i] == rulings[i + 1]);
        }
        if at < rulings.len() {
            assert(rest[at - 1] == rulings[at]);
        }
        first_ruling_on_evidence_counts(rest, text, max_chars, at - 1);
    }
}

/// The number that decimal digits stand for.
pub open spec fn number(digits: Seq<u8>) -> int
    decreases digits.len(),
{
    if digits.len() == 0 {
        0
    } else {
        number(digits.drop_last()) * 10 + (digits.last() - 48)
    }
}

/// The digits of a number stand for it, and none is written before the first that counts.
pub proof fn digits_stand_for_the_number(n: nat)
    ensures
        number(decimal(n)) == n,
        decimal(n).len() >= 1,
        forall|i: int|
            0 <= i < decimal(n).len() ==> 48
                <= #[trigger] decimal(n)[i] <= 57,
        n > 0 ==> decimal(n)[0] != 48,
    decreases n,
{
    let d = decimal(n);
    if n < 10 {
        reveal_with_fuel(number, 2);
        assert(d.drop_last() =~= Seq::empty());
    } else {
        digits_stand_for_the_number(n / 10);
        assert(d.drop_last() =~= decimal(n / 10));
    }
}

/// A token that is safe is not empty, not too long, holds no character that a token may not have, and
/// looks like nothing sensitive: no path, no address, no secret.
pub proof fn safe_tokens_are_harmless(s: Seq<char>, max_chars: int)
    requires
        is_safe_token(s, max_chars),
    ensures
        ({
            let t = trimmed(s);
            &&& 0 < t.len() <= max_chars
            &&& forall|i: int|
                0 <= i < t.len() ==> {
                    let c = #[trigger] t[i];
                    ||| 'a' <= c && c <= 'z'
                    ||| 'A' <= c && c <= 'Z'
                    ||| '0' <= c && c <= '9'
                    ||| c == '-'
                    ||| c == '_'
                    ||| c == '.'
                    ||| c == '+'
                    ||| c == ':'
                }
            &&& !occurs_in("token"@, lowered(t))
            &&& !occurs_in("secret"@, lowered(t))
            &&& !occurs_in("password"@, lowered(t))
            &&& !occurs_in("credential"@, lowered(t))
            &&& !occurs_in("authorization"@, lowered(t))
            &&& !occurs_in("bearer"@, lowered(t))
            &&& !occurs_in("account_id"@, lowered(t))
            &&& !occurs_in(".jar"@, lowered(t))
            &&& !occurs_in(".exe"@, lowered(t))
            &&& !occurs_in(".dll"@, lowered(t))
            &&& !occurs_in(".dylib"@, lowered(t))
            &&& !occurs_in(".so"@, lowered(t))
            &&& !occurs_in("-xmx"@, lowered(t))
            &&& !occurs_in("-xms"@, lowered(t))
            &&& !occurs_in("-xx:"@, lowered(t))
            &&& !begins_with(lowered(t), "-d"@)
            &&& !occurs_in("--"@, lowered(t))
            &&& !occurs_in("provider_payload"@, lowered(t))
            &&& !occurs_in("username="@, lowered(t))
            &&& !occurs_in("xuid="@, lowered(t))
            &&& !jwt_like(t)
            &&& forall|a: int, b: int| #[trigger]
                secret_run(t, a, b) ==> b - a < 48
        }),
{
    let t = trimmed(s);
    assert forall|i: int| 0 <= i < t.len() implies {
        let c = #[trigger] t[i];
        ||| 'a' <= c && c <= 'z'
        ||| 'A' <= c && c <= 'Z'
        ||| '0' <= c && c <= '9'
        ||| c == '-'
        ||| c == '_'
        ||| c == '.'
        ||| c == '+'
        ||| c == ':'
    } by {
        assert(is_token_char(t[i]));
    }
}

/// The issues of a load are added up as far as can be counted.
pub proof fn issues_add_up(counts: BoundedTemporalLoadIssueCounts)
    ensures
        ({
            let sum = counts.future_observation + counts.out_of_bounds_window;
            &&& sum <= usize::MAX ==> all_issues(counts) == sum
            &&& sum > usize::MAX ==> all_issues(counts) == usize::MAX
        }),
{
}

/// A text occurs in another exactly where the other is made of something, the text and something else.
pub proof fn texts_occur_where_they_are_put(
    before: Seq<char>,
    needle: Seq<char>,
    rest: Seq<char>,
    hay: Seq<char>,
)
    ensures
        occurs_in(needle, before + needle + rest),
        occurs_in(needle, hay) <==> exists|front: Seq<char>, back: Seq<char>|
            hay == #[trigger] (front + needle + back),
{
    let whole = before + needle + rest;
    let at = before.len() as int;
    assert(whole.subrange(at, at + needle.len()) =~= needle);
    assert(stands_at(needle, whole, at));
    if occurs_in(needle, hay) {
        let at = choose|at: int| #[trigger] stands_at(needle, hay, at);
        let front = hay.subrange(0, at);
        let back = hay.subrange(at + needle.len(), hay.len() as int);
        assert(hay =~= front + needle + back);
    }
    if exists|front: Seq<char>, back: Seq<char>| hay == #[trigger] (front + needle + back) {
        let (front, back) = choose|front: Seq<char>, back: Seq<char>|
            hay == #[trigger] (front + needle + back);
        let at = front.len() as int;
        assert(hay.subrange(at, at + needle.len()) =~= needle);
        assert(stands_at(needle, hay, at));
    }
}

/// Letters, digits and the digits of hexadecimal numbers are told by their codes. No letter is a digit.
pub proof fn characters_are_told_by_their_codes(c: char)
    ensures
        is_letter(c) <==> 65 <= c as u32 <= 90 || 97 <= c as u32 <= 122,
        is_digit(c) <==> 48 <= c as u32 <= 57,
        is_lower_hex(c) <==> 48 <= c as u32 <= 57 || 97 <= c as u32 <= 102,
        is_alphanumeric(c) <==> is_letter(c) != is_digit(c),
{
}

/// A letter, a colon and a slash of either kind are a path on a drive, wherever they stand in a text.
pub proof fn drive_paths_are_noticed(
    before: Seq<char>,
    drive: char,
    slash: char,
    rest: Seq<char>,
)
    requires
        65 <= drive as u32 <= 90 || 97 <= drive as u32 <= 122,
        slash == '/' || slash == '\\',
    ensures
        holds_drive_path(before + seq![drive, ':', slash] + rest),
        token_looks_sensitive(before + seq![drive, ':', slash] + rest),
{
    let whole = before + seq![drive, ':', slash] + rest;
    let at = before.len() as int;
    assert(whole[at] == drive && whole[at + 1] == ':' && whole[at + 2] == slash);
    assert(drive_path_at(whole, at));
}

/// Letters and digits that run on for long, with both among them, look like a secret wherever they stand
/// in a text.
pub proof fn long_runs_look_like_secrets(
    before: Seq<char>,
    run: Seq<char>,
    rest: Seq<char>,
    letter: int,
    digit: int,
)
    requires
        run.len() >= 48,
        forall|i: int|
            0 <= i < run.len() ==> is_alphanumeric(
                #[trigger] run[i],
            ),
        0 <= letter < run.len(),
        0 <= digit < run.len(),
        is_letter(run[letter]),
        is_digit(run[digit]),
    ensures
        holds_secret_run(before + run + rest),
        token_looks_sensitive(before + run + rest),
{
    let whole = before + run + rest;
    let a = before.len() as int;
    let b = a + run.len();
    assert forall|i: int| a <= i < b implies is_alphanumeric(#[trigger] whole[i]) by {
        assert(whole[i] == run[i - a]);
    }
    assert(is_letter(whole[a + letter]));
    assert(is_digit(whole[a + digit]));
    assert(secret_run(whole, a, b));
}

/// A safe token stays safe under any bound that it keeps, and under no other.
pub proof fn safe_tokens_are_bounded_by_their_length(s: Seq<char>, max: int, other: int)
    requires
        is_safe_token(s, max),
    ensures
        is_safe_token(s, other) <==> trimmed(s).len() <= other,
{
}

} // verus!
