//! Which texts may be written into a journal.

use crate::record::views;
use crate::rulings::{lists_text, ruled_evidence, LauncherRulings, LauncherRulingsView};
use crate::text::{
    after, all_chars, alphanumeric, begins_with, chars_of, contains, control, digit, has_char,
    is_alphanumeric, is_control, is_digit, is_letter, is_lower_hex, letter, lower_hex, lowered,
    occurs_in, same_text, starts_with, to_lower, trim, trimmed,
};
use vstd::prelude::*;

verus! {

/// Letters, digits and the few marks that a token is made of.
pub open spec fn is_token_char(c: char) -> bool {
    is_alphanumeric(c) || c == '-' || c == '_' || c == '.' || c == '+' || c == ':'
}

/// Whether a drive letter, a colon and a separator stand at position `i`.
pub open spec fn drive_path_at(s: Seq<char>, i: int) -> bool {
    0 <= i && i + 3 <= s.len() && is_letter(s[i]) && s[i + 1] == ':' && (s[i + 2] == '\\' || s[i + 2]
        == '/')
}

/// Whether the text holds the beginning of a Windows path.
pub open spec fn holds_drive_path(s: Seq<char>) -> bool {
    exists|i: int| #[trigger] drive_path_at(s, i)
}

/// Letters, digits, `-` and `_`.
pub open spec fn is_jwt_char(c: char) -> bool {
    is_alphanumeric(c) || c == '-' || c == '_'
}

/// Whether `s[from..to]` is long enough for a part of a web token and made of its characters.
pub open spec fn jwt_part(s: Seq<char>, from: int, to: int) -> bool {
    &&& 0 <= from <= to <= s.len()
    &&& to - from >= 12
    &&& forall|i: int| from <= i < to ==> is_jwt_char(#[trigger] s[i])
}

/// Whether the first three dotted parts of the text end at `i`, `j` and `k` and look like those of
/// a web token.
pub open spec fn jwt_parts(s: Seq<char>, i: int, j: int, k: int) -> bool {
    &&& jwt_part(s, 0, i)
    &&& i < s.len() && s[i] == '.'
    &&& jwt_part(s, i + 1, j)
    &&& j < s.len() && s[j] == '.'
    &&& jwt_part(s, j + 1, k)
    &&& k == s.len() || s[k] == '.'
}

/// Whether the text begins like a web token.
pub open spec fn jwt_like(s: Seq<char>) -> bool {
    exists|i: int, j: int, k: int| #[trigger] jwt_parts(s, i, j, k)
}

/// Whether `s[a..b]` is a run of at least 48 letters and digits that holds both.
pub open spec fn secret_run(s: Seq<char>, a: int, b: int) -> bool {
    &&& 0 <= a <= b <= s.len()
    &&& b - a >= 48
    &&& forall|i: int| a <= i < b ==> is_alphanumeric(#[trigger] s[i])
    &&& exists|i: int| a <= i < b && is_letter(#[trigger] s[i])
    &&& exists|i: int| a <= i < b && is_digit(#[trigger] s[i])
}

/// Whether the text holds a run that could be a secret.
pub open spec fn holds_secret_run(s: Seq<char>) -> bool {
    exists|a: int, b: int| #[trigger] secret_run(s, a, b)
}

/// Whether the text, in small letters, holds a word that betrays a path, a flag or a credential.
pub open spec fn holds_telling_word(low: Seq<char>) -> bool {
    ||| occurs_in(".jar"@, low)
    ||| occurs_in(".exe"@, low)
    ||| occurs_in(".dll"@, low)
    ||| occurs_in(".dylib"@, low)
    ||| occurs_in(".so"@, low)
    ||| occurs_in("-xmx"@, low)
    ||| occurs_in("-xms"@, low)
    ||| occurs_in("-xx:"@, low)
    ||| begins_with(low, "-d"@)
    ||| occurs_in("--"@, low)
    ||| occurs_in("token"@, low)
    ||| occurs_in("secret"@, low)
    ||| occurs_in("password"@, low)
    ||| occurs_in("provider_payload"@, low)
    ||| occurs_in("account_id"@, low)
    ||| occurs_in("username="@, low)
    ||| occurs_in("xuid="@, low)
    ||| occurs_in("authorization"@, low)
    ||| occurs_in("credential"@, low)
    ||| occurs_in("bearer"@, low)
}

/// Whether a structured token looks as if it held something private.
pub open spec fn token_looks_sensitive(s: Seq<char>) -> bool {
    ||| s.contains('/')
    ||| s.contains('\\')
    ||| holds_drive_path(s)
    ||| holds_telling_word(lowered(s))
    ||| s.contains('@') && s.contains('.')
    ||| jwt_like(s)
    ||| holds_secret_run(s)
}

/// Whether the text, without white space at its ends, is a token of at most `max_chars`
/// characters that gives nothing private away.
pub open spec fn is_safe_token(s: Seq<char>, max_chars: int) -> bool {
    let t = trimmed(s);
    &&& 0 < t.len() <= max_chars
    &&& all_chars(t, |c: char| !is_control(c) && is_token_char(c))
    &&& !token_looks_sensitive(t)
}

/// Whether the text is a safe token without white space at its ends.
pub open spec fn is_canonical_safe_token(s: Seq<char>, max_chars: int) -> bool {
    s == trimmed(s) && is_safe_token(s, max_chars)
}

/// Whether the text may be shown: it is neither empty nor sensitive, and something of it remains
/// when it is made safe.
pub open spec fn is_safe_public_fragment(
    s: Seq<char>,
    max_chars: usize,
    rulings: LauncherRulingsView,
) -> bool {
    let t = trimmed(s);
    &&& t.len() > 0
    &&& all_chars(t, |c: char| !is_control(c))
    &&& !rulings.sensitive_evidence.contains(t)
    &&& ruled_evidence(rulings.sanitized_evidence, t, max_chars) is Some
}

/// Whether making the text safe leaves it as it is.
pub open spec fn is_canonical_fragment(
    s: Seq<char>,
    max_chars: usize,
    rulings: LauncherRulingsView,
) -> bool {
    ruled_evidence(rulings.sanitized_evidence, s, max_chars) == Some(s)
}

/// A SHA-512 digest in small hexadecimal digits.
pub open spec fn is_sha512_text(s: Seq<char>) -> bool {
    s.len() == 128 && all_chars(s, |c: char| is_lower_hex(c))
}

/// Whether a version identifier may be named in a fact.
pub open spec fn is_version_id(s: Seq<char>, rulings: LauncherRulingsView) -> bool {
    if begins_with(s, "loader-v2-"@) {
        rulings.installed_loader_ids.contains(s)
    } else {
        rulings.version_ids.contains(s)
    }
}

/// Whether the text is a prefix of reserved facts, which only typed evidence may state.
pub open spec fn is_reserved_fact(s: Seq<char>) -> bool {
    ||| begins_with(s, "guardian_fact:"@)
    ||| begins_with(s, "guardian_outcome_"@)
    ||| begins_with(s, "integrity_counter:"@)
    ||| begins_with(s, "execution_download_fact:"@)
}

/// Whether a text that mentions a typed fact is that fact and nothing else.
pub open spec fn is_typed_fact(
    s: Seq<char>,
    prefix: Seq<char>,
    payload: spec_fn(Seq<char>) -> bool,
) -> bool {
    begins_with(s, prefix) && payload(after(s, prefix.len()))
}

/// Whether a fact may be written down as generated by a step.
pub open spec fn is_safe_generated_fact(s: Seq<char>, rulings: LauncherRulingsView) -> bool {
    if is_reserved_fact(s) {
        false
    } else if occurs_in("install_publication_evidence:"@, s) {
        is_typed_fact(
            s,
            "install_publication_evidence:"@,
            |p: Seq<char>| rulings.publication_evidence_ids.contains(p),
        )
    } else if occurs_in("install_activation_contract:"@, s) {
        is_typed_fact(
            s,
            "install_activation_contract:"@,
            |p: Seq<char>| rulings.activation_contract_ids.contains(p),
        )
    } else if occurs_in("install_publication_version_id:"@, s) {
        is_typed_fact(
            s,
            "install_publication_version_id:"@,
            |p: Seq<char>| is_version_id(p, rulings),
        )
    } else if occurs_in("install_version_id:"@, s) {
        is_typed_fact(s, "install_version_id:"@, |p: Seq<char>| is_version_id(p, rulings))
    } else if occurs_in("loader_build_id:"@, s) {
        is_typed_fact(
            s,
            "loader_build_id:"@,
            |p: Seq<char>| rulings.loader_build_ids.contains(p),
        )
    } else if occurs_in("performance_plan_graph_sha512_"@, s) {
        is_typed_fact(s, "performance_plan_graph_sha512_"@, |p: Seq<char>| is_sha512_text(p))
    } else {
        is_safe_public_fragment(s, 320, rulings)
    }
}

fn token_char(c: char) -> (r: bool)
    ensures
        r == is_token_char(c),
{
    alphanumeric(c) || c == '-' || c == '_' || c == '.' || c == '+' || c == ':'
}

fn jwt_char(c: char) -> (r: bool)
    ensures
        r == is_jwt_char(c),
{
    alphanumeric(c) || c == '-' || c == '_'
}

/// Whether the text holds the beginning of a Windows path.
pub fn contains_windows_drive_path(value: &Vec<char>) -> (r: bool)
    ensures
        r == holds_drive_path(value@),
{
    let mut i: usize = 0;
    while i < value.len()
        invariant
            i <= value.len(),
            forall|k: int| 0 <= k < i ==> !drive_path_at(value@, k),
        decreases value.len() - i,
    {
        if value.len() - i >= 3 && letter(value[i]) && value[i + 1] == ':' && (value[i + 2] == '\\'
            || value[i + 2] == '/') {
            assert(drive_path_at(value@, i as int));
            return true;
        }
        assert(!drive_path_at(value@, i as int));
        i = i + 1;
    }
    assert forall|k: int| !drive_path_at(value@, k) by {
        if 0 <= k < value@.len() {
            assert(!drive_path_at(value@, k));
        }
    }
    false
}

/// The end of the longest run of characters of a web token from `from` on.
fn jwt_run_end(value: &Vec<char>, from: usize) -> (r: usize)
    requires
        from <= value.len(),
    ensures
        from <= r <= value.len(),
        forall|i: int| from <= i < r ==> is_jwt_char(#[trigger] value@[i]),
        r < value.len() ==> !is_jwt_char(value@[r as int]),
{
    let mut i: usize = from;
    while i < value.len() && jwt_char(value[i])
        invariant
            from <= i <= value.len(),
            forall|k: int| from <= k < i ==> is_jwt_char(#[trigger] value@[k]),
        decreases value.len() - i,
    {
        i = i + 1;
    }
    i
}

/// Whether the text begins like a web token.
pub fn looks_like_jwt_token(value: &Vec<char>) -> (r: bool)
    ensures
        r == jwt_like(value@),
{
    let ghost s = value@;
    let i = jwt_run_end(value, 0);
    if i == value.len() || value[i] != '.' || i < 12 {
        assert forall|a: int, b: int, c: int| !jwt_parts(s, a, b, c) by {
            if jwt_parts(s, a, b, c) {
                if a < i {
                    assert(is_jwt_char(s[a]));
                } else if a > i {
                    assert(is_jwt_char(s[i as int]));
                }
            }
        }
        return false;
    }
    let j = jwt_run_end(value, i + 1);
    if j == value.len() || value[j] != '.' || j - (i + 1) < 12 {
        assert forall|a: int, b: int, c: int| !jwt_parts(s, a, b, c) by {
            if jwt_parts(s, a, b, c) {
                if a < i {
                    assert(is_jwt_char(s[a]));
                } else if a > i {
                    assert(is_jwt_char(s[i as int]));
                }
                if b < j {
                    assert(is_jwt_char(s[b]));
                } else if b > j {
                    assert(is_jwt_char(s[j as int]));
                }
            }
        }
        return false;
    }
    let k = jwt_run_end(value, j + 1);
    let found = (k == value.len() || value[k] == '.') && k - (j + 1) >= 12;
    proof {
        if found {
            assert(jwt_parts(s, i as int, j as int, k as int));
        } else {
            assert forall|a: int, b: int, c: int| !jwt_parts(s, a, b, c) by {
                if jwt_parts(s, a, b, c) {
                    if a < i {
                        assert(is_jwt_char(s[a]));
                    } else if a > i {
                        assert(is_jwt_char(s[i as int]));
                    }
                    if b < j {
                        assert(is_jwt_char(s[b]));
                    } else if b > j {
                        assert(is_jwt_char(s[j as int]));
                    }
                    if c < k {
                        assert(is_jwt_char(s[c]));
                    } else if c > k {
                        assert(is_jwt_char(s[k as int]));
                    }
                }
            }
        }
    }
    found
}

/// Whether the text holds a run that could be a secret.
pub fn has_long_secret_like_segment(value: &Vec<char>) -> (r: bool)
    ensures
        r == holds_secret_run(value@),
{
    let ghost s = value@;
    let mut start: usize = 0;
    let mut letters: bool = false;
    let mut digits: bool = false;
    let mut i: usize = 0;
    while i < value.len()
        invariant
            s == value@,
            start <= i <= value.len(),
            start > 0 ==> !is_alphanumeric(s[start - 1]),
            forall|k: int| start <= k < i ==> is_alphanumeric(#[trigger] s[k]),
            letters == exists|k: int| start <= k < i && is_letter(#[trigger] s[k]),
            digits == exists|k: int| start <= k < i && is_digit(#[trigger] s[k]),
            forall|a: int, b: int| b <= i ==> !#[trigger] secret_run(s, a, b),
        decreases value.len() - i,
    {
        let c = value[i];
        if alphanumeric(c) {
            let ghost letters_before = letters;
            let ghost digits_before = digits;
            if letter(c) {
                letters = true;
            }
            if digit(c) {
                digits = true;
            }
            proof {
                if is_letter(c) {
                    assert(is_letter(s[i as int]));
                }
                if is_digit(c) {
                    assert(is_digit(s[i as int]));
                }
                if letters_before {
                    let k = choose|k: int| start <= k < i && is_letter(#[trigger] s[k]);
                    assert(start <= k < i + 1 && is_letter(s[k]));
                }
                if digits_before {
                    let k = choose|k: int| start <= k < i && is_digit(#[trigger] s[k]);
                    assert(start <= k < i + 1 && is_digit(s[k]));
                }
            }
            if i + 1 - start >= 48 && letters && digits {
                assert(secret_run(s, start as int, i + 1));
                return true;
            }
            assert forall|a: int, b: int| b <= i + 1 implies !#[trigger] secret_run(s, a, b) by {
                if secret_run(s, a, b) {
                    if a < start {
                        assert(is_alphanumeric(s[start - 1]));
                    }
                    let k = choose|k: int| a <= k < b && is_letter(#[trigger] s[k]);
                    let m = choose|m: int| a <= m < b && is_digit(#[trigger] s[m]);
                    assert(start <= k < i + 1 && is_letter(s[k]));
                    assert(start <= m < i + 1 && is_digit(s[m]));
                }
            }
        } else {
            assert forall|a: int, b: int| b <= i + 1 implies !#[trigger] secret_run(s, a, b) by {
                if secret_run(s, a, b) && b == i + 1 {
                    assert(is_alphanumeric(s[i as int]));
                }
            }
            start = i + 1;
            letters = false;
            digits = false;
        }
        i = i + 1;
    }
    assert forall|a: int, b: int| !#[trigger] secret_run(s, a, b) by {
        if secret_run(s, a, b) {
            assert(b <= i);
        }
    }
    false
}

/// Whether a structured token looks as if it held something private.
pub fn structured_token_looks_sensitive(value: &Vec<char>) -> (r: bool)
    ensures
        r == token_looks_sensitive(value@),
{
    let low = to_lower(value);
    if has_char(value, '/') || has_char(value, '\\') || contains_windows_drive_path(value) {
        return true;
    }
    if contains(&low, ".jar") || contains(&low, ".exe") || contains(&low, ".dll") || contains(
        &low,
        ".dylib",
    ) || contains(&low, ".so") || contains(&low, "-xmx") || contains(&low, "-xms") || contains(
        &low,
        "-xx:",
    ) || starts_with(&low, "-d") || contains(&low, "--") || contains(&low, "token") || contains(
        &low,
        "secret",
    ) || contains(&low, "password") || contains(&low, "provider_payload") || contains(
        &low,
        "account_id",
    ) || contains(&low, "username=") || contains(&low, "xuid=") || contains(&low, "authorization")
        || contains(&low, "credential") || contains(&low, "bearer") {
        return true;
    }
    if has_char(value, '@') && has_char(value, '.') {
        return true;
    }
    looks_like_jwt_token(value) || has_long_secret_like_segment(value)
}

/// Whether the text, without white space at its ends, is a token of at most `max_chars`
/// characters that gives nothing private away.
pub fn safe_token(value: &str, max_chars: usize) -> (r: bool)
    ensures
        r == is_safe_token(value@, max_chars as int),
{
    let chars = chars_of(trim(value));
    if chars.len() == 0 || chars.len() > max_chars {
        return false;
    }
    let mut i: usize = 0;
    while i < chars.len()
        invariant
            i <= chars.len(),
            chars@ == trimmed(value@),
            forall|k: int|
                0 <= k < i ==> !is_control(#[trigger] chars@[k]) && is_token_char(chars@[k]),
        decreases chars.len() - i,
    {
        if control(chars[i]) || !token_char(chars[i]) {
            return false;
        }
        i = i + 1;
    }
    !structured_token_looks_sensitive(&chars)
}

/// Whether the text is a safe token without white space at its ends.
pub fn canonical_safe_token(value: &str, max_chars: usize) -> (r: bool)
    ensures
        r == is_canonical_safe_token(value@, max_chars as int),
{
    same_text(value, trim(value)) && safe_token(value, max_chars)
}

/// Whether the text may be shown to a user.
pub fn safe_public_fragment(value: &str, max_chars: usize, rulings: &LauncherRulings) -> (r: bool)
    ensures
        r == is_safe_public_fragment(value@, max_chars, rulings@),
{
    let text = trim(value);
    let chars = chars_of(text);
    if chars.len() == 0 {
        return false;
    }
    let mut i: usize = 0;
    while i < chars.len()
        invariant
            i <= chars.len(),
            chars@ == trimmed(value@),
            forall|k: int| 0 <= k < i ==> !is_control(#[trigger] chars@[k]),
        decreases chars.len() - i,
    {
        if control(chars[i]) {
            return false;
        }
        i = i + 1;
    }
    !lists_text(&rulings.sensitive_evidence, text) && rulings.sanitize_evidence_text(
        text,
        max_chars,
    ).is_some()
}

/// Whether making the text safe leaves it as it is.
pub fn performance_public_fragment_is_canonical(
    value: &str,
    max_chars: usize,
    rulings: &LauncherRulings,
) -> (r: bool)
    ensures
        r == is_canonical_fragment(value@, max_chars, rulings@),
{
    match rulings.sanitize_evidence_text(value, max_chars) {
        Some(sanitized) => same_text(sanitized.as_str(), value),
        None => false,
    }
}

/// Whether the text is a SHA-512 digest in small hexadecimal digits.
pub fn sha512_text(value: &str) -> (r: bool)
    ensures
        r == is_sha512_text(value@),
{
    let chars = chars_of(value);
    if chars.len() != 128 {
        return false;
    }
    let mut i: usize = 0;
    while i < chars.len()
        invariant
            i <= chars.len(),
            chars@ == value@,
            forall|k: int| 0 <= k < i ==> is_lower_hex(#[trigger] chars@[k]),
        decreases chars.len() - i,
    {
        if !lower_hex(chars[i]) {
            return false;
        }
        i = i + 1;
    }
    true
}

/// What follows a prefix, where the text begins with it.
fn strip_prefix<'a>(value: &'a str, prefix: &str) -> (r: Option<&'a str>)
    ensures
        match r {
            Some(rest) => begins_with(value@, prefix@) && rest@ == after(value@, prefix@.len()),
            None => !begins_with(value@, prefix@),
        },
{
    let chars = chars_of(value);
    let lead = chars_of(prefix);
    if starts_with(&chars, prefix) {
        Some(value.substring_char(lead.len(), chars.len()))
    } else {
        None
    }
}

/// Whether a version identifier may be named in a fact.
fn safe_version_id(version_id: &str, rulings: &LauncherRulings) -> (r: bool)
    ensures
        r == is_version_id(version_id@, rulings@),
{
    let chars = chars_of(version_id);
    if starts_with(&chars, "loader-v2-") {
        lists_text(&rulings.installed_loader_ids, version_id)
    } else {
        lists_text(&rulings.version_ids, version_id)
    }
}

/// Whether a text is the fact that names the version of an installation.
pub fn safe_install_version_id_fact(value: &str, rulings: &LauncherRulings) -> (r: bool)
    ensures
        r == is_typed_fact(
            value@,
            "install_version_id:"@,
            |p: Seq<char>| is_version_id(p, rulings@),
        ),
{
    match strip_prefix(value, "install_version_id:") {
        Some(version_id) => safe_version_id(version_id, rulings),
        None => false,
    }
}

/// Whether a text is the fact that names the version of a publication.
pub fn safe_install_publication_version_id_fact(value: &str, rulings: &LauncherRulings) -> (r: bool)
    ensures
        r == is_typed_fact(
            value@,
            "install_publication_version_id:"@,
            |p: Seq<char>| is_version_id(p, rulings@),
        ),
{
    match strip_prefix(value, "install_publication_version_id:") {
        Some(version_id) => safe_version_id(version_id, rulings),
        None => false,
    }
}

/// Whether a text is the fact that names the digest of a performance plan.
pub fn safe_performance_plan_graph_sha512_fact(value: &str) -> (r: bool)
    ensures
        r == is_typed_fact(
            value@,
            "performance_plan_graph_sha512_"@,
            |p: Seq<char>| is_sha512_text(p),
        ),
{
    match strip_prefix(value, "performance_plan_graph_sha512_") {
        Some(digest) => sha512_text(digest),
        None => false,
    }
}

/// Whether a text is a typed fact whose payload is on a list.
fn safe_listed_fact(value: &str, prefix: &str, list: &Vec<String>) -> (r: bool)
    ensures
        r == is_typed_fact(value@, prefix@, |p: Seq<char>| views(list@).contains(p)),
{
    match strip_prefix(value, prefix) {
        Some(payload) => lists_text(list, payload),
        None => false,
    }
}

/// Whether a fact may be written down as generated by a step.
pub fn safe_generated_fact(value: &str, rulings: &LauncherRulings) -> (r: bool)
    ensures
        r == is_safe_generated_fact(value@, rulings@),
{
    let chars = chars_of(value);
    if starts_with(&chars, "guardian_fact:") || starts_with(&chars, "guardian_outcome_")
        || starts_with(&chars, "integrity_counter:") || starts_with(
        &chars,
        "execution_download_fact:",
    ) {
        return false;
    }
    if contains(&chars, "install_publication_evidence:") {
        return safe_listed_fact(
            value,
            "install_publication_evidence:",
            &rulings.publication_evidence_ids,
        );
    }
    if contains(&chars, "install_activation_contract:") {
        return safe_listed_fact(
            value,
            "install_activation_contract:",
            &rulings.activation_contract_ids,
        );
    }
    if contains(&chars, "install_publication_version_id:") {
        return safe_install_publication_version_id_fact(value, rulings);
    }
    if contains(&chars, "install_version_id:") {
        return safe_install_version_id_fact(value, rulings);
    }
    if contains(&chars, "loader_build_id:") {
        return safe_listed_fact(value, "loader_build_id:", &rulings.loader_build_ids);
    }
    if contains(&chars, "performance_plan_graph_sha512_") {
        return safe_performance_plan_graph_sha512_fact(value);
    }
    safe_public_fragment(value, 320, rulings)
}

/// What follows a prefix, as a list: nothing where the text does not begin with it.
pub open spec fn payload_after(s: Seq<char>, prefix: Seq<char>) -> Seq<Seq<char>> {
    if begins_with(s, prefix) {
        seq![after(s, prefix.len())]
    } else {
        Seq::empty()
    }
}

/// The texts on which the launcher's verdicts are needed to judge a text: the text itself, the text
/// without white space at its ends, and what a typed fact names.
pub open spec fn judged_texts(s: Seq<char>) -> Seq<Seq<char>> {
    seq![s, trimmed(s)] + payload_after(s, "install_publication_evidence:"@) + payload_after(
        s,
        "install_activation_contract:"@,
    ) + payload_after(s, "install_publication_version_id:"@) + payload_after(
        s,
        "install_version_id:"@,
    ) + payload_after(s, "loader_build_id:"@)
}

fn push_payload(texts: &mut Vec<String>, value: &str, prefix: &str)
    ensures
        views(final(texts)@) == views(old(texts)@) + payload_after(value@, prefix@),
{
    match strip_prefix(value, prefix) {
        Some(payload) => {
            texts.push(payload.to_owned());
        },
        None => {},
    }
    assert(views(texts@) =~= views(old(texts)@) + payload_after(value@, prefix@));
}

/// The texts on which the launcher's verdicts are needed to judge a text.
pub fn texts_to_judge(value: &str) -> (r: Vec<String>)
    ensures
        views(r@) == judged_texts(value@),
{
    let mut texts: Vec<String> = Vec::new();
    texts.push(value.to_owned());
    texts.push(trim(value).to_owned());
    assert(views(texts@) =~= seq![value@, trimmed(value@)]);
    push_payload(&mut texts, value, "install_publication_evidence:");
    push_payload(&mut texts, value, "install_activation_contract:");
    push_payload(&mut texts, value, "install_publication_version_id:");
    push_payload(&mut texts, value, "install_version_id:");
    push_payload(&mut texts, value, "loader_build_id:");
    texts
}

/// Whether two tables hold the same verdicts on a text.
pub open spec fn same_verdicts(
    left: LauncherRulingsView,
    right: LauncherRulingsView,
    text: Seq<char>,
) -> bool {
    &&& left.sensitive_evidence.contains(text) == right.sensitive_evidence.contains(text)
    &&& left.version_ids.contains(text) == right.version_ids.contains(text)
    &&& left.installed_loader_ids.contains(text) == right.installed_loader_ids.contains(text)
    &&& left.loader_build_ids.contains(text) == right.loader_build_ids.contains(text)
    &&& left.publication_evidence_ids.contains(text) == right.publication_evidence_ids.contains(
        text,
    )
    &&& left.activation_contract_ids.contains(text) == right.activation_contract_ids.contains(text)
    &&& forall|max_chars: usize| #[trigger]
        ruled_evidence(left.sanitized_evidence, text, max_chars) == ruled_evidence(
            right.sanitized_evidence,
            text,
            max_chars,
        )
}

/// Verdicts on the texts that are needed to judge a text decide what is made of it.
pub proof fn judged_texts_decide(
    s: Seq<char>,
    max_chars: usize,
    left: LauncherRulingsView,
    right: LauncherRulingsView,
)
    requires
        forall|i: int|
            0 <= i < judged_texts(s).len() ==> same_verdicts(
                left,
                right,
                #[trigger] judged_texts(s)[i],
            ),
    ensures
        is_safe_generated_fact(s, left) == is_safe_generated_fact(s, right),
        is_safe_public_fragment(s, max_chars, left) == is_safe_public_fragment(s, max_chars, right),
        is_canonical_fragment(s, max_chars, left) == is_canonical_fragment(s, max_chars, right),
{
    let texts = judged_texts(s);
    let a = payload_after(s, "install_publication_evidence:"@);
    let b = payload_after(s, "install_activation_contract:"@);
    let c = payload_after(s, "install_publication_version_id:"@);
    let d = payload_after(s, "install_version_id:"@);
    let e = payload_after(s, "loader_build_id:"@);
    assert(texts[0] == s);
    assert(texts[1] == trimmed(s));
    let at_b: int = 2 + a.len() as int;
    let at_c: int = at_b + b.len();
    let at_d: int = at_c + c.len();
    let at_e: int = at_d + d.len();
    assert(a.len() > 0 ==> texts[2] == a[0]);
    assert(b.len() > 0 ==> texts[at_b] == b[0]);
    assert(c.len() > 0 ==> texts[at_c] == c[0]);
    assert(d.len() > 0 ==> texts[at_d] == d[0]);
    assert(e.len() > 0 ==> texts[at_e] == e[0]);
}

} // verus!
