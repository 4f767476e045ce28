use vstd::prelude::*;
use vstd::string::{StrSliceExecFns, StringExecFns};
use vstd::utf8::encode_utf8;
use crate::error::StoreError;

verus! {

broadcast use vstd::slice::group_slice_axioms;

/// The Unicode `White_Space` property, which `char::is_whitespace` and
/// `str::trim` use.
pub open spec fn is_ws(c: char) -> bool {
    let u = c as u32;
    ||| 0x09 <= u <= 0x0d
    ||| u == 0x20
    ||| u == 0x85
    ||| u == 0xa0
    ||| u == 0x1680
    ||| 0x2000 <= u <= 0x200a
    ||| u == 0x2028
    ||| u == 0x2029
    ||| u == 0x202f
    ||| u == 0x205f
    ||| u == 0x3000
}

/// The text without its leading whitespace.
pub open spec fn trim_start(s: Seq<char>) -> Seq<char>
    decreases s.len(),
{
    if s.len() > 0 && is_ws(s[0]) {
        trim_start(s.drop_first())
    } else {
        s
    }
}

/// The text without its trailing whitespace.
pub open spec fn trim_end(s: Seq<char>) -> Seq<char>
    decreases s.len(),
{
    if s.len() > 0 && is_ws(s.last()) {
        trim_end(s.drop_last())
    } else {
        s
    }
}

/// The text without leading and trailing whitespace (`str::trim`).
pub open spec fn trimmed(s: Seq<char>) -> Seq<char> {
    trim_end(trim_start(s))
}

/// A text is blank when nothing but whitespace remains after trimming.
pub open spec fn blank(s: Seq<char>) -> bool {
    trimmed(s).len() == 0
}

/// Number of bytes of the UTF-8 encoding of a text.
pub open spec fn byte_len(s: Seq<char>) -> nat {
    encode_utf8(s).len()
}

/// The first `n` characters of a text (all of it when it is shorter).
pub open spec fn take_chars(s: Seq<char>, n: nat) -> Seq<char> {
    if s.len() <= n {
        s
    } else {
        s.take(n as int)
    }
}

pub fn is_whitespace(c: char) -> (result: bool)
    ensures
        result == is_ws(c),
{
    let u = c as u32;
    (0x09 <= u && u <= 0x0d) || u == 0x20 || u == 0x85 || u == 0xa0 || u == 0x1680 || (0x2000
        <= u && u <= 0x200a) || u == 0x2028 || u == 0x2029 || u == 0x202f || u == 0x205f || u
        == 0x3000
}

proof fn lemma_trim_start_step(s: Seq<char>, i: int)
    requires
        0 <= i < s.len(),
        is_ws(s[i]),
    ensures
        trim_start(s.subrange(i, s.len() as int)) == trim_start(s.subrange(i + 1, s.len() as int)),
{
    let t = s.subrange(i, s.len() as int);
    assert(t.drop_first() =~= s.subrange(i + 1, s.len() as int));
}

proof fn lemma_trim_end_step(s: Seq<char>, i: int, j: int)
    requires
        0 <= i < j <= s.len(),
        is_ws(s[j - 1]),
    ensures
        trim_end(s.subrange(i, j)) == trim_end(s.subrange(i, j - 1)),
{
    let t = s.subrange(i, j);
    assert(t.drop_last() =~= s.subrange(i, j - 1));
}

proof fn lemma_trim_end_of_trimmed_start(s: Seq<char>)
    ensures
        trim_start(s).len() == 0 || !is_ws(trim_start(s)[0]),
    decreases s.len(),
{
    if s.len() > 0 && is_ws(s[0]) {
        lemma_trim_start_step_full(s);
        lemma_trim_end_of_trimmed_start(s.drop_first());
    }
}

proof fn lemma_trim_start_step_full(s: Seq<char>)
    requires
        s.len() > 0,
        is_ws(s[0]),
    ensures
        trim_start(s) == trim_start(s.drop_first()),
{
}

/// Trims leading and trailing whitespace, returning the borrowed middle
/// (`str::trim`).
pub fn trim(s: &str) -> (result: &str)
    ensures
        result@ == trimmed(s@),
{
    let n = s.unicode_len();
    let mut i: usize = 0;
    assert(s@.subrange(0, n as int) =~= s@);
    while i < n && is_whitespace(s.get_char(i))
        invariant
            i <= n,
            n == s@.len(),
            trim_start(s@) == trim_start(s@.subrange(i as int, n as int)),
        decreases n - i,
    {
        proof {
            lemma_trim_start_step(s@, i as int);
        }
        i = i + 1;
    }
    proof {
        let t = s@.subrange(i as int, n as int);
        if i < n {
            assert(t[0] == s@[i as int]);
        } else {
            assert(t.len() == 0);
        }
        assert(trim_start(t) == t);
    }
    let mut j: usize = n;
    while j > i && is_whitespace(s.get_char(j - 1))
        invariant
            i <= j <= n,
            n == s@.len(),
            trim_start(s@) == s@.subrange(i as int, n as int),
            trim_end(s@.subrange(i as int, n as int)) == trim_end(s@.subrange(i as int, j as int)),
        decreases j - i,
    {
        proof {
            lemma_trim_end_step(s@, i as int, j as int);
        }
        j = j - 1;
    }
    proof {
        let u = s@.subrange(i as int, j as int);
        if j > i {
            assert(u.last() == s@[j - 1]);
        }
        assert(trim_end(u) == u);
    }
    s.substring_char(i, j)
}

/// A text that is empty after trimming.
pub fn is_blank(s: &str) -> (result: bool)
    ensures
        result == blank(s@),
{
    let t = trim(s);
    t.unicode_len() == 0
}

/// Exact equality of two texts.
pub fn str_eq(a: &str, b: &str) -> (result: bool)
    ensures
        result == (a@ == b@),
{
    let n = a.unicode_len();
    if n != b.unicode_len() {
        return false;
    }
    let mut i: usize = 0;
    while i < n
        invariant
            i <= n,
            n == a@.len(),
            n == b@.len(),
            forall|k: int| 0 <= k < i ==> a@[k] == b@[k],
        decreases n - i,
    {
        if a.get_char(i) != b.get_char(i) {
            return false;
        }
        i = i + 1;
    }
    assert(a@ =~= b@);
    true
}

/// Keeps the first `max_chars` characters of a text (`chars().take(n)`).
pub fn take_first_chars(s: &str, max_chars: usize) -> (result: String)
    ensures
        result@ == take_chars(s@, max_chars as nat),
{
    let n = s.unicode_len();
    let end = if n <= max_chars {
        n
    } else {
        max_chars
    };
    let part = s.substring_char(0, end);
    proof {
        if n <= max_chars {
            assert(s@.subrange(0, n as int) =~= s@);
        }
    }
    part.to_owned()
}

/// The message of a required text that is blank.
pub open spec fn empty_text_message(field: Seq<char>) -> Seq<char> {
    field + " must not be empty"@
}

/// The message of a required text longer than `max_bytes` bytes.
pub open spec fn too_long_message(field: Seq<char>, max_bytes: nat) -> Seq<char> {
    field + " exceeds "@ + crate::group::fingerprint::decimal(max_bytes) + " bytes"@
}

/// Requires a non-blank text of at most `max_bytes` UTF-8 bytes once trimmed,
/// and hands back the trimmed text.
pub fn require_text<'a>(field: &str, value: &'a str, max_bytes: usize) -> (result: Result<
    &'a str,
    StoreError,
>)
    ensures
        blank(value@) ==> (result matches Err(StoreError::InvalidRequest(m)) && m@
            == empty_text_message(field@)),
        !blank(value@) && byte_len(trimmed(value@)) > max_bytes ==> (result matches Err(
            StoreError::InvalidRequest(m),
        ) && m@ == too_long_message(field@, max_bytes as nat)),
        !blank(value@) && byte_len(trimmed(value@)) <= max_bytes ==> (result matches Ok(t)
            && t@ == trimmed(value@)),
{
    let t = trim(value);
    if t.unicode_len() == 0 {
        let mut message = field.to_string();
        message.append(" must not be empty");
        return Err(StoreError::InvalidRequest(message));
    }
    if t.as_bytes().len() > max_bytes {
        let mut message = field.to_string();
        message.append(" exceeds ");
        let digits = crate::group::fingerprint::decimal_text(max_bytes as u64);
        message.append(digits.as_str());
        message.append(" bytes");
        return Err(StoreError::InvalidRequest(message));
    }
    Ok(t)
}

/// The characters of a text, in order.
pub fn chars_of(s: &str) -> (result: Vec<char>)
    ensures
        result@ == s@,
{
    let mut v: Vec<char> = Vec::new();
    for c in it: s.chars()
        invariant
            v@ == it.seq().take(it.index() as int),
    {
        v.push(c);
    }
    assert(v@ =~= s@);
    v
}


/// Lower-case hexadecimal digit.
pub open spec fn is_lower_hex(c: char) -> bool {
    ('0' <= c <= '9') || ('a' <= c <= 'f')
}

/// Any hexadecimal digit (`u8::is_ascii_hexdigit`).
pub open spec fn is_any_hex(c: char) -> bool {
    ('0' <= c <= '9') || ('a' <= c <= 'f') || ('A' <= c <= 'F')
}

/// The `sha256:` prefix of a content digest reference.
pub open spec fn sha256_prefix() -> Seq<char> {
    seq!['s', 'h', 'a', '2', '5', '6', ':']
}

/// `sha256:` followed by exactly 64 lower-case hexadecimal characters.
pub open spec fn is_sha256_reference(s: Seq<char>) -> bool {
    &&& s.len() == 71
    &&& s.take(7) == sha256_prefix()
    &&& forall|i: int| 7 <= i < 71 ==> is_lower_hex(#[trigger] s[i])
}

/// Starts with the `sha256:` prefix.
pub open spec fn has_sha256_prefix(s: Seq<char>) -> bool {
    s.len() >= 7 && s.take(7) == sha256_prefix()
}

/// The message of a digest without the `sha256:` prefix.
pub open spec fn sha256_format_message(field: Seq<char>) -> Seq<char> {
    field + " must use the sha256:<lowercase-hex> format"@
}

/// The message of a prefixed digest that is not 64 lowercase hex digits.
pub open spec fn sha256_digits_message(field: Seq<char>) -> Seq<char> {
    field + " must contain 64 lowercase hexadecimal characters"@
}

/// Checks the `sha256:<lowercase-hex>` digest format.
pub fn require_sha256(field: &str, value: &str) -> (result: Result<(), StoreError>)
    ensures
        is_sha256_reference(value@) ==> result is Ok,
        !has_sha256_prefix(value@) ==> (result matches Err(StoreError::InvalidRequest(m)) && m@
            == sha256_format_message(field@)),
        has_sha256_prefix(value@) && !is_sha256_reference(value@) ==> (result matches Err(
            StoreError::InvalidRequest(m),
        ) && m@ == sha256_digits_message(field@)),
{
    let v = chars_of(value);
    let n = v.len();
    let prefix = n >= 7 && v[0] == 's' && v[1] == 'h' && v[2] == 'a' && v[3] == '2' && v[4] == '5'
        && v[5] == '6' && v[6] == ':';
    if !prefix {
        proof {
            if has_sha256_prefix(value@) {
                assert(value@.take(7)[0] == 's');
                assert(value@.take(7)[1] == 'h');
                assert(value@.take(7)[2] == 'a');
                assert(value@.take(7)[3] == '2');
                assert(value@.take(7)[4] == '5');
                assert(value@.take(7)[5] == '6');
                assert(value@.take(7)[6] == ':');
            }
        }
        let mut message = field.to_string();
        message.append(" must use the sha256:<lowercase-hex> format");
        return Err(StoreError::InvalidRequest(message));
    }
    assert(value@.take(7) =~= sha256_prefix());
    if n != 71 {
        let mut message = field.to_string();
        message.append(" must contain 64 lowercase hexadecimal characters");
        return Err(StoreError::InvalidRequest(message));
    }
    let mut i: usize = 7;
    while i < 71
        invariant
            7 <= i <= 71,
            v@ == value@,
            n == 71,
            v@.len() == 71,
            value@.take(7) == sha256_prefix(),
            forall|k: int| 7 <= k < i ==> is_lower_hex(#[trigger] value@[k]),
        decreases 71 - i,
    {
        let c = v[i];
        if !(('0' <= c && c <= '9') || ('a' <= c && c <= 'f')) {
            let mut message = field.to_string();
            message.append(" must contain 64 lowercase hexadecimal characters");
            return Err(StoreError::InvalidRequest(message));
        }
        i = i + 1;
    }
    Ok(())
}

/// True when the segment that starts at `i` begins there.
pub open spec fn segment_starts_at(p: Seq<char>, i: int) -> bool {
    i == 0 || p[i - 1] == '/'
}

/// True when a segment ends just before `j`.
pub open spec fn segment_ends_at(p: Seq<char>, j: int) -> bool {
    j == p.len() || p[j] == '/'
}

/// A `.` or `..` segment starts at `i`.
pub open spec fn dot_segment_at(p: Seq<char>, i: int) -> bool {
    &&& p[i] == '.'
    &&& segment_starts_at(p, i)
    &&& (segment_ends_at(p, i + 1) || (i + 1 < p.len() && p[i + 1] == '.' && segment_ends_at(
        p,
        i + 2,
    )))
}

/// A root-relative path whose `/`-separated segments are all non-empty and
/// none of them is `.` or `..`, and which holds no backslash.
pub open spec fn is_normalized_relative_path(p: Seq<char>) -> bool {
    &&& p.len() > 0
    &&& p[0] != '/'
    &&& p.last() != '/'
    &&& forall|i: int| 0 <= i < p.len() ==> #[trigger] p[i] != '\\'
    &&& forall|i: int| 0 <= i < p.len() - 1 ==> !(#[trigger] p[i] == '/' && p[i + 1] == '/')
    &&& forall|i: int| 0 <= i < p.len() ==> !#[trigger] dot_segment_at(p, i)
}

/// Requires a Drive source path that is normalized and root-relative, and hands
/// back its trimmed form.
pub fn validate_relative_path<'a>(path: &'a str) -> (result: Result<&'a str, StoreError>)
    ensures
        match result {
            Ok(p) => !blank(path@) && byte_len(trimmed(path@)) <= 4096 && p@ == trimmed(path@)
                && is_normalized_relative_path(p@),
            Err(e) => e.is_invalid_request() && (blank(path@) || byte_len(trimmed(path@)) > 4096
                || !is_normalized_relative_path(trimmed(path@))),
        },
{
    let p = require_text("source_path", path, 4096)?;
    let v = chars_of(p);
    let n = v.len();
    if v[0] == '/' || v[n - 1] == '/' {
        return Err(StoreError::InvalidRequest("source_path".to_string()));
    }
    let mut i: usize = 0;
    while i < n
        invariant
            v@ == p@,
            p@ == trimmed(path@),
            n == v@.len(),
            n > 0,
            i <= n,
            forall|k: int| 0 <= k < i ==> #[trigger] p@[k] != '\\',
            forall|k: int| 0 <= k < i && k < n - 1 ==> !(#[trigger] p@[k] == '/' && p@[k + 1]
                == '/'),
            forall|k: int| 0 <= k < i ==> !#[trigger] dot_segment_at(p@, k),
        decreases n - i,
    {
        let c = v[i];
        if c == '\\' {
            assert(p@[i as int] == '\\');
            return Err(StoreError::InvalidRequest("source_path".to_string()));
        }
        if c == '/' && i + 1 < n && v[i + 1] == '/' {
            assert(p@[i as int] == '/' && p@[i + 1] == '/');
            return Err(StoreError::InvalidRequest("source_path".to_string()));
        }
        if c == '.' && (i == 0 || v[i - 1] == '/') {
            let single = i + 1 == n || v[i + 1] == '/';
            let double = i + 1 < n && v[i + 1] == '.' && (i + 2 == n || v[i + 2] == '/');
            if single || double {
                assert(dot_segment_at(p@, i as int));
                return Err(StoreError::InvalidRequest("source_path".to_string()));
            }
        }
        i = i + 1;
    }
    Ok(p)
}

/// ASCII letter or digit, `-`, `_` or `.`.
pub open spec fn is_drive_id_char(c: char) -> bool {
    ('0' <= c <= '9') || ('a' <= c <= 'z') || ('A' <= c <= 'Z') || c == '-' || c == '_' || c
        == '.'
}

/// A Drive identifier once trimmed: 1 to 128 characters, each a drive id
/// character (all ASCII, so characters and bytes count the same).
pub open spec fn is_safe_drive_id(t: Seq<char>) -> bool {
    &&& 0 < t.len() <= 128
    &&& forall|i: int| 0 <= i < t.len() ==> is_drive_id_char(#[trigger] t[i])
}

/// Requires a safe Drive identifier and hands back its trimmed form.
pub fn require_safe_drive_id(value: &str, field: &str) -> (result: Result<String, StoreError>)
    ensures
        match result {
            Ok(t) => is_safe_drive_id(trimmed(value@)) && t@ == trimmed(value@),
            Err(e) => e matches StoreError::Internal(m) && m@ == "invalid "@ + field@
            && !is_safe_drive_id(trimmed(value@)),
        },
{
    let t = trim(value);
    let v = chars_of(t);
    let n = v.len();
    if n == 0 || n > 128 {
        let mut message = "invalid ".to_string();
        message.append(field);
        return Err(StoreError::Internal(message));
    }
    let mut i: usize = 0;
    while i < n
        invariant
            v@ == t@,
            t@ == trimmed(value@),
            n == v@.len(),
            i <= n,
            forall|k: int| 0 <= k < i ==> is_drive_id_char(#[trigger] t@[k]),
        decreases n - i,
    {
        let c = v[i];
        if !(('0' <= c && c <= '9') || ('a' <= c && c <= 'z') || ('A' <= c && c <= 'Z') || c
            == '-' || c == '_' || c == '.') {
            assert(!is_drive_id_char(t@[i as int]));
            let mut message = "invalid ".to_string();
            message.append(field);
            return Err(StoreError::Internal(message));
        }
        i = i + 1;
    }
    Ok(t.to_owned())
}

/// Requires an optional locale tag of at most 35 bytes; absent means "any
/// locale", which the queries encode as the empty text.
pub fn normalize_locale(locale: Option<&str>) -> (result: Result<String, StoreError>)
    ensures
        locale is None ==> (result matches Ok(t) && t@.len() == 0),
        locale matches Some(l) ==> (match result {
            Ok(t) => !blank(l@) && byte_len(trimmed(l@)) <= 35 && t@ == trimmed(l@),
            Err(e) => e.is_invalid_request() && (blank(l@) || byte_len(trimmed(l@)) > 35),
        }),
{
    match locale {
        None => Ok(String::new()),
        Some(l) => {
            let t = require_text("locale", l, 35)?;
            Ok(t.to_owned())
        },
    }
}

/// The `okf/` prefix of an OKF logical path.
pub open spec fn okf_prefix() -> Seq<char> {
    seq!['o', 'k', 'f', '/']
}

/// A bundle relative path is the logical path without its `okf/` prefix.
pub open spec fn bundle_relative_path(p: Seq<char>) -> Seq<char> {
    if p.len() >= 4 && p.take(4) == okf_prefix() {
        p.skip(4)
    } else {
        p
    }
}

/// Strips the `okf/` prefix of an OKF logical path, if it has one.
pub fn bundle_relative_path_from_logical_path(logical_path: &str) -> (result: String)
    ensures
        result@ == bundle_relative_path(logical_path@),
{
    let n = logical_path.unicode_len();
    if n >= 4 && logical_path.get_char(0) == 'o' && logical_path.get_char(1) == 'k'
        && logical_path.get_char(2) == 'f' && logical_path.get_char(3) == '/' {
        assert(logical_path@.take(4) =~= okf_prefix());
        let rest = logical_path.substring_char(4, n);
        assert(rest@ =~= logical_path@.skip(4));
        rest.to_owned()
    } else {
        proof {
            if n >= 4 && logical_path@.take(4) == okf_prefix() {
                assert(logical_path@.take(4)[0] == 'o');
                assert(logical_path@.take(4)[1] == 'k');
                assert(logical_path@.take(4)[2] == 'f');
                assert(logical_path@.take(4)[3] == '/');
            }
        }
        logical_path.to_owned()
    }
}

/// Database code of a boolean flag.
pub fn bool_code(value: bool) -> (result: i64)
    ensures
        result == (if value {
            1i64
        } else {
            0i64
        }),
{
    if value {
        1
    } else {
        0
    }
}

/// Error codes are stored with at most 64 characters.
pub fn truncate_error_code(error_code: &str) -> (result: String)
    ensures
        result@ == take_chars(error_code@, 64),
{
    take_first_chars(error_code, 64)
}

/// Outbox delivery errors are stored with at most 1024 characters, cut on a
/// character boundary.
pub fn truncate_outbox_error(error_message: &str) -> (result: String)
    ensures
        result@ == take_chars(error_message@, 1024),
{
    take_first_chars(error_message, 1024)
}


/// What `str::to_lowercase` returns for a text: the full Unicode lower-case
/// mapping, a function of the text alone.
pub uninterp spec fn unicode_lowercase(s: Seq<char>) -> Seq<char>;

/// Calls `str::to_lowercase`; the result is named, not restated.
#[verifier::external_body]
fn to_lowercase(s: &str) -> (result: String)
    ensures
        result@ == unicode_lowercase(s@),
{
    s.to_lowercase()
}

/// How one character is written inside a `LIKE ... ESCAPE '\'` pattern.
pub open spec fn like_escaped_char(c: char) -> Seq<char> {
    if c == '\\' {
        seq!['\\', '\\']
    } else if c == '%' {
        seq!['\\', '%']
    } else if c == '_' {
        seq!['\\', '_']
    } else {
        seq![c]
    }
}

/// A text with every `\`, `%` and `_` escaped for `LIKE ... ESCAPE '\'`.
pub open spec fn like_escaped(s: Seq<char>) -> Seq<char>
    decreases s.len(),
{
    if s.len() == 0 {
        seq![]
    } else {
        like_escaped(s.drop_last()) + like_escaped_char(s.last())
    }
}

/// The substring pattern that a search query becomes: `%` + the escaped
/// lower-cased query + `%`.
pub open spec fn like_contains_pattern(lowered: Seq<char>) -> Seq<char> {
    seq!['%'] + like_escaped(lowered) + seq!['%']
}

/// Builds the case-insensitive substring `LIKE` pattern of a search query.
pub fn escaped_like_pattern(query: &str) -> (result: String)
    ensures
        result@ == like_contains_pattern(unicode_lowercase(query@)),
{
    let lowered = to_lowercase(query);
    contains_like_pattern(lowered.as_str())
}

/// The substring `LIKE` pattern of an already lower-cased query: `%`, the
/// query with `\`, `%` and `_` escaped, and `%`.
pub fn contains_like_pattern(text: &str) -> (result: String)
    ensures
        result@ == like_contains_pattern(text@),
{
    let n = text.unicode_len();
    let mut out = String::new();
    proof {
        reveal_strlit("%");
        reveal_strlit("\\\\");
        reveal_strlit("\\%");
        reveal_strlit("\\_");
    }
    out.append("%");
    let mut i: usize = 0;
    while i < n
        invariant
            i <= n,
            n == text@.len(),
            out@ == seq!['%'] + like_escaped(text@.take(i as int)),
        decreases n - i,
    {
        let c = text.get_char(i);
        let ghost before = out@;
        if c == '\\' {
            proof {
                reveal_strlit("\\\\");
            }
            assert("\\\\"@ =~= like_escaped_char(c));
            out.append("\\\\");
        } else if c == '%' {
            proof {
                reveal_strlit("\\%");
            }
            assert("\\%"@ =~= like_escaped_char(c));
            out.append("\\%");
        } else if c == '_' {
            proof {
                reveal_strlit("\\_");
            }
            assert("\\_"@ =~= like_escaped_char(c));
            out.append("\\_");
        } else {
            let one = text.substring_char(i, i + 1);
            assert(one@ =~= like_escaped_char(c));
            out.append(one);
        }
        assert(out@ =~= before + like_escaped_char(c));
        proof {
            let t = text@.take(i + 1);
            assert(t.drop_last() =~= text@.take(i as int));
            assert(t.last() == c);
            assert(like_escaped(t) == like_escaped(text@.take(i as int)) + like_escaped_char(c));
            assert(out@ =~= seq!['%'] + like_escaped(t));
        }
        i = i + 1;
    }
    out.append("%");
    assert(text@.take(n as int) =~= text@);
    out
}


/// The view of an optional owned text.
pub open spec fn opt_view(o: Option<String>) -> Option<Seq<char>> {
    match o {
        Some(s) => Some(s@),
        None => None,
    }
}

/// Compares an optional owned text with a text (`as_deref() == Some(b)`).
pub fn opt_eq_str(a: &Option<String>, b: &str) -> (result: bool)
    ensures
        result == (opt_view(*a) == Some(b@)),
{
    match a {
        Some(x) => str_eq(x.as_str(), b),
        None => false,
    }
}

/// Compares two optional owned texts by content.
pub fn opt_eq(a: &Option<String>, b: &Option<String>) -> (result: bool)
    ensures
        result == (opt_view(*a) == opt_view(*b)),
{
    match (a, b) {
        (Some(x), Some(y)) => str_eq(x.as_str(), y.as_str()),
        (None, None) => true,
        _ => false,
    }
}

/// Clones an optional owned text.
pub fn opt_clone(a: &Option<String>) -> (result: Option<String>)
    ensures
        opt_view(result) == opt_view(*a),
{
    match a {
        Some(x) => Some(x.clone()),
        None => None,
    }
}

/// A message followed by the value it is about.
pub fn message_with(prefix: &str, value: &str) -> (result: String)
    ensures
        result@ == prefix@ + value@,
{
    let mut message = prefix.to_string();
    message.append(value);
    message
}

/// The decimal text of a signed number, with `-` before a negative one
/// (`i64::to_string`).
pub open spec fn signed_decimal(n: int) -> Seq<char> {
    if n < 0 {
        seq!['-'] + crate::group::fingerprint::decimal((-n) as nat)
    } else {
        crate::group::fingerprint::decimal(n as nat)
    }
}

/// A message followed by a signed number in decimal.
pub fn message_with_number(prefix: &str, value: i64) -> (result: String)
    ensures
        result@ == prefix@ + signed_decimal(value as int),
{
    let mut message = prefix.to_string();
    if value < 0 {
        proof {
            reveal_strlit("-");
        }
        message.append("-");
        let magnitude: u64 = ((-(value + 1)) as u64) + 1;
        let digits = crate::group::fingerprint::decimal_text(magnitude);
        message.append(digits.as_str());
        assert(message@ =~= prefix@ + signed_decimal(value as int));
    } else {
        let digits = crate::group::fingerprint::decimal_text(value as u64);
        message.append(digits.as_str());
    }
    message
}

/// A message followed by an unsigned number in decimal.
pub fn message_with_u64(prefix: &str, value: u64) -> (result: String)
    ensures
        result@ == prefix@ + crate::group::fingerprint::decimal(value as nat),
{
    let mut message = prefix.to_string();
    let digits = crate::group::fingerprint::decimal_text(value);
    message.append(digits.as_str());
    message
}

} // verus!
