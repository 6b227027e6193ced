//! The names that the library itself writes into journals are safe tokens.

use crate::contracts::OperationId;
use crate::operation_id::{operation_text, operation_text_shape};
use crate::text::{
    begins_with, is_digit, lowered, occurs_in, stands_at, trimmed, trimmed_end, trimmed_start,
};
use crate::tokens::{
    drive_path_at, holds_drive_path, holds_secret_run, holds_telling_word, is_canonical_safe_token,
    is_safe_token, jwt_like, jwt_parts, secret_run, token_looks_sensitive,
};
use vstd::prelude::*;

verus! {

/// Small letters, digits, `_` and `-`.
pub open spec fn is_plain_char(c: char) -> bool {
    'a' <= c <= 'z' || is_digit(c) || c == '_' || c == '-'
}

/// Whether a text is made of plain characters and holds none of the words that would betray a flag
/// or a credential.
pub open spec fn is_plain_name(s: Seq<char>) -> bool {
    &&& 0 < s.len() < 48
    &&& s[0] != '-'
    &&& forall|i: int| 0 <= i < s.len() ==> is_plain_char(#[trigger] s[i])
    &&& !occurs_in("-xmx"@, s)
    &&& !occurs_in("-xms"@, s)
    &&& !occurs_in("--"@, s)
    &&& !occurs_in("token"@, s)
    &&& !occurs_in("secret"@, s)
    &&& !occurs_in("password"@, s)
    &&& !occurs_in("provider_payload"@, s)
    &&& !occurs_in("account_id"@, s)
    &&& !occurs_in("authorization"@, s)
    &&& !occurs_in("credential"@, s)
    &&& !occurs_in("bearer"@, s)
}

/// A word does not occur in a text that lacks one of its characters.
proof fn lacks_a_character(needle: Seq<char>, hay: Seq<char>, i: int)
    requires
        0 <= i < needle.len(),
        forall|k: int| 0 <= k < hay.len() ==> #[trigger] hay[k] != needle[i],
    ensures
        !occurs_in(needle, hay),
{
    assert forall|at: int| !#[trigger] stands_at(needle, hay, at) by {
        if stands_at(needle, hay, at) {
            assert(hay.subrange(at, at + needle.len())[i] == hay[at + i]);
        }
    }
}

/// The words with a character that no plain name holds.
proof fn holds_no_marked_word(s: Seq<char>)
    requires
        forall|i: int| 0 <= i < s.len() ==> is_plain_char(#[trigger] s[i]),
    ensures
        !occurs_in(".jar"@, s),
        !occurs_in(".exe"@, s),
        !occurs_in(".dll"@, s),
        !occurs_in(".dylib"@, s),
        !occurs_in(".so"@, s),
        !occurs_in("-xx:"@, s),
        !occurs_in("username="@, s),
        !occurs_in("xuid="@, s),
{
    reveal_strlit(".jar");
    reveal_strlit(".exe");
    reveal_strlit(".dll");
    reveal_strlit(".dylib");
    reveal_strlit(".so");
    reveal_strlit("-xx:");
    reveal_strlit("username=");
    reveal_strlit("xuid=");
    lacks_a_character(".jar"@, s, 0);
    lacks_a_character(".exe"@, s, 0);
    lacks_a_character(".dll"@, s, 0);
    lacks_a_character(".dylib"@, s, 0);
    lacks_a_character(".so"@, s, 0);
    lacks_a_character("-xx:"@, s, 3);
    lacks_a_character("username="@, s, 8);
    lacks_a_character("xuid="@, s, 4);
}

/// A plain name is a safe token.
pub proof fn plain_names_are_safe(s: Seq<char>, max_chars: int)
    requires
        is_plain_name(s),
        s.len() <= max_chars,
    ensures
        is_canonical_safe_token(s, max_chars),
        is_safe_token(s, max_chars),
{
    assert(is_plain_char(s[0]) && is_plain_char(s[s.len() - 1]));
    assert(trimmed_start(s) == s);
    assert(trimmed_end(s) == s);
    assert(trimmed(s) == s);
    assert(lowered(s) =~= s);
    holds_no_marked_word(s);
    assert(!begins_with(s, "-d"@)) by {
        reveal_strlit("-d");
        if stands_at("-d"@, s, 0) {
            assert(s.subrange(0, 2)[0] == s[0]);
        }
    }
    assert(!holds_telling_word(lowered(s)));
    assert(!holds_drive_path(s)) by {
        assert forall|i: int| !#[trigger] drive_path_at(s, i) by {
            if drive_path_at(s, i) {
                assert(is_plain_char(s[i + 1]));
            }
        }
    }
    assert(!jwt_like(s)) by {
        assert forall|i: int, j: int, k: int| !#[trigger] jwt_parts(s, i, j, k) by {
            if jwt_parts(s, i, j, k) {
                assert(is_plain_char(s[i]));
            }
        }
    }
    assert(!holds_secret_run(s)) by {
        assert forall|a: int, b: int| !#[trigger] secret_run(s, a, b) by {}
    }
    assert(!s.contains('/') && !s.contains('\\') && !s.contains('@'));
    assert(!token_looks_sensitive(s));
}

/// The journal of an operation is named by a safe token.
pub proof fn journal_names_are_safe(id: OperationId)
    ensures
        is_canonical_safe_token("journal-"@ + operation_text(id), 128),
        is_safe_token("journal-"@ + operation_text(id), 128),
{
    let s = "journal-"@ + operation_text(id);
    reveal_strlit("journal-");
    operation_text_shape(id);
    assert(s.len() == 47);
    assert forall|i: int| 11 <= i < 47 implies (if i == 19 || i == 24 || i == 29 || i == 34 {
        #[trigger] s[i] == '-'
    } else {
        'a' <= s[i] <= 'f' || is_digit(s[i])
    }) by {
        assert(s[i] == operation_text(id)[i - 8]);
    }
    assert(s[8] == 'o' && s[9] == 'p' && s[10] == '-');
    assert forall|i: int| 0 <= i < s.len() implies is_plain_char(#[trigger] s[i]) && s[i] != 'x' && s[i]
        != 't' && s[i] != 's' && s[i] != 'v' && s[i] != '_' && (s[i] == 'r' ==> i == 3) by {}
    reveal_strlit("-xmx");
    reveal_strlit("-xms");
    reveal_strlit("--");
    reveal_strlit("token");
    reveal_strlit("secret");
    reveal_strlit("password");
    reveal_strlit("provider_payload");
    reveal_strlit("account_id");
    reveal_strlit("authorization");
    reveal_strlit("credential");
    reveal_strlit("bearer");
    lacks_a_character("-xmx"@, s, 1);
    lacks_a_character("-xms"@, s, 1);
    lacks_a_character("token"@, s, 0);
    lacks_a_character("secret"@, s, 0);
    lacks_a_character("password"@, s, 2);
    lacks_a_character("provider_payload"@, s, 3);
    lacks_a_character("account_id"@, s, 7);
    lacks_a_character("authorization"@, s, 2);
    lacks_a_character("credential"@, s, 6);
    assert forall|at: int| !#[trigger] stands_at("--"@, s, at) by {
        if stands_at("--"@, s, at) {
            assert(s.subrange(at, at + 2)[0] == s[at]);
            assert(s.subrange(at, at + 2)[1] == s[at + 1]);
        }
    }
    assert forall|at: int| !#[trigger] stands_at("bearer"@, s, at) by {
        if stands_at("bearer"@, s, at) {
            assert(s.subrange(at, at + 6)[3] == s[at + 3]);
            assert(s.subrange(at, at + 6)[5] == s[at + 5]);
        }
    }
    plain_names_are_safe(s, 128);
}

/// The step that repairs a persisted record is named by a safe token.
pub proof fn repair_step_name_is_safe()
    ensures
        is_safe_token("quarantine_rejected_restart_record"@, 96),
{
    let s = "quarantine_rejected_restart_record"@;
    reveal_strlit("quarantine_rejected_restart_record");
    reveal_strlit("-xmx");
    reveal_strlit("-xms");
    reveal_strlit("--");
    reveal_strlit("token");
    reveal_strlit("secret");
    reveal_strlit("password");
    reveal_strlit("provider_payload");
    reveal_strlit("account_id");
    reveal_strlit("authorization");
    reveal_strlit("credential");
    reveal_strlit("bearer");
    assert forall|i: int| 0 <= i < s.len() implies is_plain_char(#[trigger] s[i]) && s[i] != '-'
        && s[i] != 'b' && s[i] != 'h' && s[i] != 'k' && s[i] != 'l' && s[i] != 'p' by {}
    lacks_a_character("-xmx"@, s, 0);
    lacks_a_character("-xms"@, s, 0);
    lacks_a_character("--"@, s, 0);
    lacks_a_character("token"@, s, 2);
    lacks_a_character("password"@, s, 0);
    lacks_a_character("provider_payload"@, s, 0);
    lacks_a_character("authorization"@, s, 3);
    lacks_a_character("credential"@, s, 9);
    lacks_a_character("bearer"@, s, 0);
    assert forall|at: int| !#[trigger] stands_at("secret"@, s, at) by {
        if stands_at("secret"@, s, at) {
            assert(s.subrange(at, at + 6)[0] == s[at]);
            assert(s.subrange(at, at + 6)[1] == s[at + 1]);
        }
    }
    assert forall|at: int| !#[trigger] stands_at("account_id"@, s, at) by {
        if stands_at("account_id"@, s, at) {
            assert(s.subrange(at, at + 10)[3] == s[at + 3]);
        }
    }
    plain_names_are_safe(s, 96);
}

/// The point at which an abandoned operation failed is a safe token.
pub proof fn abandoned_failure_point_is_safe()
    ensures
        is_safe_token("performance_operation_abandoned_before_effect"@, 96),
{
    let s = "performance_operation_abandoned_before_effect"@;
    reveal_strlit("performance_operation_abandoned_before_effect");
    reveal_strlit("-xmx");
    reveal_strlit("-xms");
    reveal_strlit("--");
    reveal_strlit("token");
    reveal_strlit("secret");
    reveal_strlit("password");
    reveal_strlit("provider_payload");
    reveal_strlit("account_id");
    reveal_strlit("authorization");
    reveal_strlit("credential");
    reveal_strlit("bearer");
    assert forall|i: int| 0 <= i < s.len() implies is_plain_char(#[trigger] s[i]) && s[i] != '-'
        && s[i] != 'k' && s[i] != 'l' && s[i] != 's' && s[i] != 'u' && s[i] != 'v' by {}
    lacks_a_character("-xmx"@, s, 0);
    lacks_a_character("-xms"@, s, 0);
    lacks_a_character("--"@, s, 0);
    lacks_a_character("token"@, s, 2);
    lacks_a_character("secret"@, s, 0);
    lacks_a_character("password"@, s, 2);
    lacks_a_character("provider_payload"@, s, 3);
    lacks_a_character("account_id"@, s, 4);
    lacks_a_character("authorization"@, s, 1);
    lacks_a_character("credential"@, s, 9);
    assert forall|at: int| !#[trigger] stands_at("bearer"@, s, at) by {
        if stands_at("bearer"@, s, at) {
            assert(s.subrange(at, at + 6)[0] == s[at]);
            assert(s.subrange(at, at + 6)[2] == s[at + 2]);
        }
    }
    plain_names_are_safe(s, 96);
}

/// The point at which an operation failed is a safe token.
pub proof fn failed_failure_point_is_safe()
    ensures
        is_safe_token("performance_operation_failed"@, 96),
{
    let s = "performance_operation_failed"@;
    reveal_strlit("performance_operation_failed");
    reveal_strlit("-xmx");
    reveal_strlit("-xms");
    reveal_strlit("--");
    reveal_strlit("token");
    reveal_strlit("secret");
    reveal_strlit("password");
    reveal_strlit("provider_payload");
    reveal_strlit("account_id");
    reveal_strlit("authorization");
    reveal_strlit("credential");
    reveal_strlit("bearer");
    assert forall|i: int| 0 <= i < s.len() implies is_plain_char(#[trigger] s[i]) && s[i] != '-'
        && s[i] != 'b' && s[i] != 'k' && s[i] != 's' && s[i] != 'u' && s[i] != 'v' by {}
    lacks_a_character("-xmx"@, s, 0);
    lacks_a_character("-xms"@, s, 0);
    lacks_a_character("--"@, s, 0);
    lacks_a_character("token"@, s, 2);
    lacks_a_character("secret"@, s, 0);
    lacks_a_character("password"@, s, 2);
    lacks_a_character("provider_payload"@, s, 3);
    lacks_a_character("account_id"@, s, 4);
    lacks_a_character("authorization"@, s, 1);
    lacks_a_character("bearer"@, s, 0);
    assert forall|at: int| !#[trigger] stands_at("credential"@, s, at) by {
        if stands_at("credential"@, s, at) {
            assert(s.subrange(at, at + 10)[3] == s[at + 3]);
        }
    }
    plain_names_are_safe(s, 96);
}

} // verus!
