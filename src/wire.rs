use vstd::prelude::*;
use crate::transport::ServerMessage;

verus! {

/// The character of decimal digit `d`.
pub open spec fn digit_char(d: nat) -> char {
    if d == 0 {
        '0'
    } else if d == 1 {
        '1'
    } else if d == 2 {
        '2'
    } else if d == 3 {
        '3'
    } else if d == 4 {
        '4'
    } else if d == 5 {
        '5'
    } else if d == 6 {
        '6'
    } else if d == 7 {
        '7'
    } else if d == 8 {
        '8'
    } else {
        '9'
    }
}

/// The shortest decimal text of `n`.
pub open spec fn decimal(n: nat) -> Seq<char>
    decreases n,
{
    if n < 10 {
        seq![digit_char(n)]
    } else {
        decimal(n / 10).push(digit_char(n % 10))
    }
}

/// Whether `c` is a decimal digit.
pub open spec fn is_digit(c: char) -> bool {
    '0' <= c && c <= '9'
}

/// The value of a text of decimal digits.
pub open spec fn digits_value(s: Seq<char>) -> nat
    decreases s.len(),
{
    if s.len() == 0 {
        0
    } else {
        digits_value(s.drop_last()) * 10 + (s.last() as nat - '0' as nat) as nat
    }
}

/// A text that is a nonempty run of decimal digits.
pub open spec fn all_digits(s: Seq<char>) -> bool {
    s.len() > 0 && forall|i: int| 0 <= i < s.len() ==> is_digit(#[trigger] s[i])
}

fn digit_text(d: u64) -> (r: &'static str)
    requires
        d < 10,
    ensures
        r@ == seq![digit_char(d as nat)],
{
    proof {
        reveal_strlit("0");
        reveal_strlit("1");
        reveal_strlit("2");
        reveal_strlit("3");
        reveal_strlit("4");
        reveal_strlit("5");
        reveal_strlit("6");
        reveal_strlit("7");
        reveal_strlit("8");
        reveal_strlit("9");
    }
    let r = if d == 0 {
        "0"
    } else if d == 1 {
        "1"
    } else if d == 2 {
        "2"
    } else if d == 3 {
        "3"
    } else if d == 4 {
        "4"
    } else if d == 5 {
        "5"
    } else if d == 6 {
        "6"
    } else if d == 7 {
        "7"
    } else if d == 8 {
        "8"
    } else {
        "9"
    };
    assert(r@ =~= seq![digit_char(d as nat)]);
    r
}

/// The decimal text of `n`, as correlation ids and ports are written.
pub fn decimal_text(n: u64) -> (r: String)
    ensures
        r@ == decimal(n as nat),
    decreases n,
{
    if n < 10 {
        String::from_str(digit_text(n))
    } else {
        let mut r = decimal_text(n / 10);
        r.append(digit_text(n % 10));
        r
    }
}

proof fn lemma_digits_value_prefix(s: Seq<char>, j: int, k: int)
    requires
        0 <= j <= k <= s.len(),
        forall|i: int| 0 <= i < s.len() ==> is_digit(#[trigger] s[i]),
    ensures
        digits_value(s.subrange(0, j)) <= digits_value(s.subrange(0, k)),
    decreases k - j,
{
    if j < k {
        lemma_digits_value_prefix(s, j, k - 1);
        assert(s.subrange(0, k).drop_last() =~= s.subrange(0, k - 1));
        assert(is_digit(s[k - 1]));
    }
}

/// Reads a correlation id: a nonempty run of decimal digits whose value fits in `u64`.
pub fn parse_decimal(s: &str) -> (r: Option<u64>)
    ensures
        r is Some <==> all_digits(s@) && digits_value(s@) <= u64::MAX,
        r is Some ==> r->0 == digits_value(s@),
{
    let n = s.unicode_len();
    if n == 0 {
        return None;
    }
    let mut acc: u64 = 0;
    let mut i: usize = 0;
    while i < n
        invariant
            n == s@.len(),
            i <= n,
            forall|k: int| 0 <= k < i ==> is_digit(#[trigger] s@[k]),
            acc == digits_value(s@.subrange(0, i as int)),
        decreases n - i,
    {
        let c = s.get_char(i);
        if !('0' <= c && c <= '9') {
            return None;
        }
        let d = (c as u32 - '0' as u32) as u64;
        assert(s@.subrange(0, i + 1).drop_last() =~= s@.subrange(0, i as int));
        if acc > (u64::MAX - d) / 10 {
            proof {
                if forall|k: int| 0 <= k < s@.len() ==> is_digit(#[trigger] s@[k]) {
                    lemma_digits_value_prefix(s@, i + 1, n as int);
                    assert(s@.subrange(0, n as int) =~= s@);
                }
            }
            return None;
        }
        acc = acc * 10 + d;
        i = i + 1;
    }
    assert(s@.subrange(0, n as int) =~= s@);
    Some(acc)
}

proof fn lemma_digit_char(d: nat)
    requires
        d < 10,
    ensures
        is_digit(digit_char(d)),
        digit_char(d) as nat - '0' as nat == d,
{
}

/// The decimal text of a number is a run of digits whose value is the number.
pub proof fn lemma_decimal_value(n: nat)
    ensures
        all_digits(decimal(n)),
        digits_value(decimal(n)) == n,
    decreases n,
{
    lemma_digit_char((n % 10) as nat);
    if n < 10 {
        assert(n % 10 == n);
        assert(decimal(n).drop_last() =~= Seq::<char>::empty());
        assert(decimal(n).last() == digit_char(n));
        assert(digits_value(Seq::<char>::empty()) == 0);
    } else {
        assert(n == (n / 10) * 10 + n % 10) by (nonlinear_arith);
        lemma_decimal_value(n / 10);
        let t = decimal(n / 10);
        assert(decimal(n).drop_last() =~= t);
        assert(decimal(n).last() == digit_char(n % 10));
        assert(digits_value(decimal(n)) == digits_value(t) * 10 + (digit_char(n % 10) as nat - '0' as nat) as nat);
        assert forall|i: int| 0 <= i < decimal(n).len() implies is_digit(#[trigger] decimal(n)[i]) by {
            if i < t.len() {
                assert(decimal(n)[i] == t[i]);
            }
        }
    }
}

/// The JSON string literal that encodes a text.
pub uninterp spec fn json_string_of(s: Seq<char>) -> Seq<char>;

/// A text that JSON carries between quotes unchanged: no quote, no
/// backslash, no control character.
pub open spec fn json_plain(s: Seq<char>) -> bool {
    forall|i: int| 0 <= i < s.len() ==> #[trigger] s[i] != '"' && s[i] != '\\' && s[i] >= ' '
}

/// Relies on `serde_json::to_string` on a `str`: the text between double
/// quotes, escaping only quotes, backslashes and control characters (its
/// `format_escaped_str`). Writing into a `Vec` cannot fail, so the error arm
/// is never taken.
#[verifier::external_body]
pub(crate) fn json_string(s: &str) -> (r: String)
    ensures
        r@ == json_string_of(s@),
        json_plain(s@) ==> r@ == seq!['"'] + s@ + seq!['"'],
{
    match serde_json::to_string(s) {
        Ok(t) => t,
        Err(_) => String::new(),
    }
}

/// Whether two texts are equal.
pub fn text_eq(a: &str, b: &str) -> (r: bool)
    ensures
        r == (a@ == b@),
{
    let n = a.unicode_len();
    if n != b.unicode_len() {
        return false;
    }
    let mut i: usize = 0;
    while i < n
        invariant
            n == a@.len() == b@.len(),
            i <= n,
            forall|k: int| 0 <= k < i ==> a@[k] == b@[k],
        decreases n - i,
    {
        if a.get_char(i) != b.get_char(i) {
            return false;
        }
        i = i + 1;
    }
    assert(a@ =~= b@);
    true
}

/// The message that opens a session, carrying the session token.
pub open spec fn init_frame(token: Seq<char>) -> Seq<char> {
    "{\"type\":\"connection_init\",\"payload\":{\"token\":"@ + json_string_of(token) + "}}"@
}

/// The message that starts request or subscription `id` with a query body.
pub open spec fn start_frame(id: u64, body: Seq<char>) -> Seq<char> {
    "{\"id\":\""@ + decimal(id as nat) + "\",\"type\":\"start\",\"payload\":"@ + body + "}"@
}

/// The message that stops subscription `id`.
pub open spec fn stop_frame(id: u64) -> Seq<char> {
    "{\"id\":\""@ + decimal(id as nat) + "\",\"type\":\"stop\"}"@
}

/// The message that opens a session with `token`.
pub fn connection_init_frame(token: &str) -> (r: String)
    ensures
        r@ == init_frame(token@),
{
    let mut r = String::from_str("{\"type\":\"connection_init\",\"payload\":{\"token\":");
    let t = json_string(token);
    r.append(t.as_str());
    r.append("}}");
    r
}

/// The message that starts request or subscription `id`; `body` is the JSON
/// of the query.
pub fn start_message(id: u64, body: &str) -> (r: String)
    ensures
        r@ == start_frame(id, body@),
{
    let mut r = String::from_str("{\"id\":\"");
    let d = decimal_text(id);
    r.append(d.as_str());
    r.append("\",\"type\":\"start\",\"payload\":");
    r.append(body);
    r.append("}");
    r
}

/// The message that stops subscription `id`.
pub fn stop_message(id: u64) -> (r: String)
    ensures
        r@ == stop_frame(id),
{
    let mut r = String::from_str("{\"id\":\"");
    let d = decimal_text(id);
    r.append(d.as_str());
    r.append("\",\"type\":\"stop\"}");
    r
}

/// The correlation id that an id text gives, if it is one.
pub open spec fn id_of(id: Option<&str>) -> Option<u64> {
    match id {
        Some(t) => if all_digits(t@) && digits_value(t@) <= u64::MAX {
            Some(digits_value(t@) as u64)
        } else {
            None
        },
        None => None,
    }
}

/// The message that a type tag, an id text and a payload (JSON text) make,
/// if any: an unknown tag, or a missing or malformed id where one is needed,
/// makes none.
pub open spec fn server_message_of(kind: Seq<char>, id: Option<&str>, payload: String) -> Option<ServerMessage> {
    if kind == "connection_ack"@ {
        Some(ServerMessage::ConnectionAck)
    } else if kind == "connection_error"@ {
        Some(ServerMessage::ConnectionError { payload })
    } else if kind == "ka"@ {
        Some(ServerMessage::KeepAlive)
    } else if kind == "data"@ || kind == "error"@ || kind == "complete"@ {
        match id_of(id) {
            Some(n) => if kind == "data"@ {
                Some(ServerMessage::Data { id: n, payload })
            } else if kind == "error"@ {
                Some(ServerMessage::Error { id: n, payload })
            } else {
                Some(ServerMessage::Complete { id: n })
            },
            None => None,
        }
    } else {
        None
    }
}

fn read_id(id: Option<&str>) -> (r: Option<u64>)
    ensures
        r == id_of(id),
{
    match id {
        Some(t) => parse_decimal(t),
        None => None,
    }
}

/// Reads an inbound message from its type tag, its id text and its payload.
pub fn parse_server_message(kind: &str, id: Option<&str>, payload: String) -> (r: Option<ServerMessage>)
    ensures
        r == server_message_of(kind@, id, payload),
{
    if text_eq(kind, "connection_ack") {
        Some(ServerMessage::ConnectionAck)
    } else if text_eq(kind, "connection_error") {
        Some(ServerMessage::ConnectionError { payload })
    } else if text_eq(kind, "ka") {
        Some(ServerMessage::KeepAlive)
    } else if text_eq(kind, "data") {
        match read_id(id) {
            Some(n) => Some(ServerMessage::Data { id: n, payload }),
            None => None,
        }
    } else if text_eq(kind, "error") {
        match read_id(id) {
            Some(n) => Some(ServerMessage::Error { id: n, payload }),
            None => None,
        }
    } else if text_eq(kind, "complete") {
        match read_id(id) {
            Some(n) => Some(ServerMessage::Complete { id: n }),
            None => None,
        }
    } else {
        None
    }
}

/// An id written by a session reads back as itself, so every reply to a
/// start message is routed to the id that started it.
pub proof fn lemma_id_text_round_trip(n: u64, t: &str)
    requires
        t@ == decimal(n as nat),
    ensures
        id_of(Some(t)) == Some(n),
{
    lemma_decimal_value(n as nat);
}

} // verus!
