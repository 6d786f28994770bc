use vstd::prelude::*;
use crate::hub::{Envelope, EnvelopeView};
use crate::presence::names_of;

verus! {

/// A hexadecimal digit, lower case.
pub open spec fn hex_digit(n: int) -> char {
    if n < 10 {
        (('0' as int) + n) as char
    } else {
        (('a' as int) + n - 10) as char
    }
}

/// One character inside a JSON string: quote, backslash and the control
/// characters escaped, the short forms where JSON has them, `\u00xx`
/// otherwise; every other character as it is.
pub open spec fn json_char(c: char) -> Seq<char> {
    if c == '"' {
        seq!['\\', '"']
    } else if c == '\\' {
        seq!['\\', '\\']
    } else if c == '\u{8}' {
        seq!['\\', 'b']
    } else if c == '\t' {
        seq!['\\', 't']
    } else if c == '\n' {
        seq!['\\', 'n']
    } else if c == '\u{c}' {
        seq!['\\', 'f']
    } else if c == '\r' {
        seq!['\\', 'r']
    } else if (c as int) < 0x20 {
        seq!['\\', 'u', '0', '0', hex_digit((c as int) / 16), hex_digit((c as int) % 16)]
    } else {
        seq![c]
    }
}

/// The escaped characters of a string, in order.
pub open spec fn json_chars(s: Seq<char>) -> Seq<char>
    decreases s.len(),
{
    if s.len() == 0 {
        Seq::empty()
    } else {
        json_chars(s.drop_last()) + json_char(s.last())
    }
}

/// A JSON string literal.
pub open spec fn json_string(s: Seq<char>) -> Seq<char> {
    seq!['"'] + json_chars(s) + seq!['"']
}

/// The string literals of a list, separated by commas.
pub open spec fn json_items(names: Seq<Seq<char>>) -> Seq<char>
    decreases names.len(),
{
    if names.len() == 0 {
        Seq::empty()
    } else if names.len() == 1 {
        json_string(names[0])
    } else {
        json_items(names.drop_last()) + seq![','] + json_string(names.last())
    }
}

/// The compact JSON array of a list of strings.
pub open spec fn json_names(names: Seq<Seq<char>>) -> Seq<char> {
    seq!['['] + json_items(names) + seq![']']
}

/// What `chrono` writes for the UTC instant `secs` seconds after the Unix
/// epoch, as `HH:MM:SS DD.MM.YYYY`.
pub uninterp spec fn utc_clock_text(secs: int) -> Seq<char>;

/// Seconds from the Unix epoch to 9999-12-31 23:59:59 UTC.
pub const LAST_SECOND_OF_9999: i64 = 253402300799;

/// Relies on `serde_json::to_string`: the compact JSON array of the given
/// strings, escaped as its string formatter does. Serialising a list of
/// strings cannot fail.
#[verifier::external_body]
fn names_to_json(names: &Vec<String>) -> (r: String)
    ensures
        r@ == json_names(names_of(names@)),
{
    serde_json::to_string(names).unwrap()
}

/// Relies on `chrono::DateTime::from_timestamp` (`None` only outside its
/// calendar, which spans at least the years 1970 to 9999) and on `format`
/// with `%H:%M:%S %d.%m.%Y`.
#[verifier::external_body]
fn utc_text(secs: i64) -> (r: Option<String>)
    ensures
        r matches Some(s) ==> s@ == utc_clock_text(secs as int),
        0 <= secs <= LAST_SECOND_OF_9999 ==> r is Some,
{
    match chrono::DateTime::from_timestamp(secs, 0) {
        Some(t) => Some(t.format("%H:%M:%S %d.%m.%Y").to_string()),
        None => None,
    }
}

/// `sender (time): body`.
pub open spec fn chat_line_text(sender: Seq<char>, time: Seq<char>, body: Seq<char>) -> Seq<char> {
    sender + " ("@ + time + "): "@ + body
}

/// `name joined the chat`.
pub open spec fn joined_text(name: Seq<char>) -> Seq<char> {
    name + " joined the chat"@
}

/// `name left the chat`.
pub open spec fn left_text(name: Seq<char>) -> Seq<char> {
    name + " left the chat"@
}

/// `ACTIVE_USERS: ` followed by the JSON text of the list.
pub open spec fn presence_text(json: Seq<char>) -> Seq<char> {
    "ACTIVE_USERS: "@ + json
}

/// The text that goes out on the wire for an envelope.
pub open spec fn rendered(e: EnvelopeView) -> Seq<char> {
    match e {
        EnvelopeView::ChatLine(s) => s,
        EnvelopeView::PresenceSnapshot(names) => presence_text(json_names(names)),
    }
}

/// The chat line `sender (time): body`.
pub fn chat_line(sender: &str, time: &str, body: &str) -> (r: String)
    ensures
        r@ == chat_line_text(sender@, time@, body@),
{
    let mut r = String::from_str(sender);
    r.append(" (");
    r.append(time);
    r.append("): ");
    r.append(body);
    r
}

/// The line announcing that `name` arrived.
pub fn joined_line(name: &str) -> (r: String)
    ensures
        r@ == joined_text(name@),
{
    let mut r = String::from_str(name);
    r.append(" joined the chat");
    r
}

/// The line announcing that `name` left.
pub fn left_line(name: &str) -> (r: String)
    ensures
        r@ == left_text(name@),
{
    let mut r = String::from_str(name);
    r.append(" left the chat");
    r
}

/// The presence payload around an already written JSON array.
pub fn presence_payload_from_json(json: &str) -> (r: String)
    ensures
        r@ == presence_text(json@),
{
    let mut r = String::from_str("ACTIVE_USERS: ");
    r.append(json);
    r
}

/// The presence payload for a list of names.
pub fn presence_payload(names: &Vec<String>) -> (r: String)
    ensures
        r@ == presence_text(json_names(names_of(names@))),
{
    let json = names_to_json(names);
    presence_payload_from_json(json.as_str())
}

/// The wire text of an envelope.
pub fn render(e: &Envelope) -> (r: String)
    ensures
        r@ == rendered(e@),
{
    match e {
        Envelope::ChatLine(s) => s.clone(),
        Envelope::PresenceSnapshot(names) => presence_payload(names),
    }
}

/// The time of sending, as written on the wire, for `secs` seconds after the
/// Unix epoch; `None` where the instant is out of the calendar's range, and
/// never from the epoch to the end of the year 9999.
pub fn sent_at_text(secs: i64) -> (r: Option<String>)
    ensures
        r matches Some(s) ==> s@ == utc_clock_text(secs as int),
        0 <= secs <= LAST_SECOND_OF_9999 ==> r is Some,
{
    utc_text(secs)
}

/// One stored message, as read back: sender, body and time of sending.
pub open spec fn history_line_text(rec: (String, String, String)) -> Seq<char> {
    chat_line_text(rec.0@, rec.2@, rec.1@)
}

/// The lines that replay stored history to a joining user, one for each
/// record `(sender, body, time)`, in the order given.
pub fn history_lines(records: &Vec<(String, String, String)>) -> (r: Vec<String>)
    ensures
        names_of(r@) == records@.map_values(|rec: (String, String, String)| history_line_text(rec)),
{
    let ghost want = records@.map_values(|rec: (String, String, String)| history_line_text(rec));
    let mut out: Vec<String> = Vec::new();
    let mut i: usize = 0;
    while i < records.len()
        invariant
            0 <= i <= records@.len(),
            want.len() == records@.len(),
            want == records@.map_values(|rec: (String, String, String)| history_line_text(rec)),
            names_of(out@) == want.take(i as int),
        decreases records@.len() - i,
    {
        let ghost o0 = out@;
        let rec = &records[i];
        let line = chat_line(rec.0.as_str(), rec.2.as_str(), rec.1.as_str());
        out.push(line);
        proof {
            crate::presence::lemma_names_of_push(o0, line);
        }
        assert(want.take(i + 1) =~= want.take(i as int).push(want[i as int]));
        i = i + 1;
    }
    assert(want.take(i as int) =~= want);
    out
}

} // verus!
