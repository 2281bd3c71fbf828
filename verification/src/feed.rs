//! Reading one field out of the text that the market feed writes, without
//! parsing the whole of it: the value of a field is what stands between the
//! field's name and the next comma (or, failing a comma, the next closing
//! brace), without the blanks around it.

use vstd::prelude::*;

verus! {

/// Whether `pattern` stands in `text` at position `at`.
pub open spec fn occurs_at(text: Seq<u8>, pattern: Seq<u8>, at: int) -> bool {
    &&& 0 <= at
    &&& at + pattern.len() <= text.len()
    &&& forall|k: int| 0 <= k < pattern.len() ==> text[at + k] == pattern[k]
}

/// Whether `at` is the first position from `from` on at which `pattern`
/// stands in `text`.
pub open spec fn first_at(text: Seq<u8>, pattern: Seq<u8>, from: int, at: int) -> bool {
    &&& from <= at
    &&& occurs_at(text, pattern, at)
    &&& forall|earlier: int| from <= earlier < at ==> !occurs_at(text, pattern, earlier)
}

/// Whether `pattern` stands nowhere in `text` from `from` on.
pub open spec fn absent_from(text: Seq<u8>, pattern: Seq<u8>, from: int) -> bool {
    forall|at: int| from <= at ==> !occurs_at(text, pattern, at)
}

/// Whether `byte` is a blank: a space, a tab, a line feed, a vertical tab, a
/// form feed or a carriage return.
pub open spec fn is_blank(byte: u8) -> bool {
    byte == 32 || (9 <= byte <= 13)
}

/// The name of a field as it stands in the text: in double quotes and
/// followed by a colon.
pub open spec fn field_marker(field_name: Seq<u8>) -> Seq<u8> {
    seq![34u8] + field_name + seq![34u8, 58u8]
}

/// Whether `[start, end)` is `[from, to)` without the blanks at both ends.
pub open spec fn trimmed_to(text: Seq<u8>, from: int, to: int, start: int, end: int) -> bool {
    &&& from <= start <= end <= to
    &&& forall|k: int| from <= k < start ==> is_blank(#[trigger] text[k])
    &&& forall|k: int| end <= k < to ==> is_blank(#[trigger] text[k])
    &&& start < end ==> !is_blank(text[start]) && !is_blank(text[end - 1])
    &&& start == end ==> start == to
}

/// Where the value of a field stands, given where the field's marker ends
/// and where the value is cut off.
pub open spec fn value_found(
    text: Seq<u8>,
    field_name: Seq<u8>,
    start: int,
    end: int,
) -> bool {
    exists|marker: int, cut: int|
        {
            &&& #[trigger] first_at(text, field_marker(field_name), 0, marker)
            &&& if !absent_from(text, seq![44u8], marker + field_marker(field_name).len()) {
                first_at(text, seq![44u8], marker + field_marker(field_name).len(), cut)
            } else {
                first_at(text, seq![125u8], marker + field_marker(field_name).len(), cut)
            }
            &&& #[trigger] trimmed_to(
                text,
                marker + field_marker(field_name).len(),
                cut,
                start,
                end,
            )
        }
}

/// Whether the text holds no value for the field: its marker stands
/// nowhere, or neither a comma nor a closing brace follows it.
pub open spec fn value_missing(text: Seq<u8>, field_name: Seq<u8>) -> bool {
    ||| absent_from(text, field_marker(field_name), 0)
    ||| exists|marker: int|
        {
            &&& #[trigger] first_at(text, field_marker(field_name), 0, marker)
            &&& absent_from(text, seq![44u8], marker + field_marker(field_name).len())
            &&& absent_from(text, seq![125u8], marker + field_marker(field_name).len())
        }
}

/// Tells whether `pattern` stands in `text` at position `at`.
fn stands_at(text: &[u8], pattern: &[u8], at: usize) -> (found: bool)
    requires
        at + pattern@.len() <= text@.len(),
    ensures
        found == occurs_at(text@, pattern@, at as int),
{
    let total = text.len();
    let mut k: usize = 0;
    while k < pattern.len()
        invariant
            k <= pattern@.len(),
            total == text@.len(),
            at + pattern@.len() <= total,
            forall|j: int| 0 <= j < k ==> text@[at + j] == pattern@[j],
        decreases pattern@.len() - k,
    {
        if text[at + k] != pattern[k] {
            return false;
        }
        k += 1;
    }
    true
}

/// The first position from `from` on at which `pattern` stands in `text`.
pub fn find_bytes(text: &[u8], pattern: &[u8], from: usize) -> (found: Option<usize>)
    ensures
        match found {
            Some(at) => first_at(text@, pattern@, from as int, at as int),
            None => absent_from(text@, pattern@, from as int),
        },
{
    if pattern.len() > text.len() || from > text.len() - pattern.len() {
        return None;
    }
    let last = text.len() - pattern.len();
    let mut at: usize = from;
    while at < last
        invariant
            from <= at <= last,
            last == text@.len() - pattern@.len(),
            forall|earlier: int| from <= earlier < at ==> !occurs_at(text@, pattern@, earlier),
        decreases last - at,
    {
        if stands_at(text, pattern, at) {
            return Some(at);
        }
        at += 1;
    }
    if stands_at(text, pattern, last) {
        Some(last)
    } else {
        None
    }
}

/// Tells whether `byte` is a blank.
pub fn blank(byte: u8) -> (r: bool)
    ensures
        r == is_blank(byte),
{
    byte == 32 || (9 <= byte && byte <= 13)
}

/// The range `[from, to)` without the blanks at both ends.
pub fn trim_range(text: &[u8], from: usize, to: usize) -> (range: (usize, usize))
    requires
        from <= to <= text@.len(),
    ensures
        trimmed_to(text@, from as int, to as int, range.0 as int, range.1 as int),
{
    let mut start = from;
    while start < to && blank(text[start])
        invariant
            from <= start <= to <= text@.len(),
            forall|k: int| from <= k < start ==> is_blank(#[trigger] text@[k]),
        decreases to - start,
    {
        start += 1;
    }
    let mut end = to;
    while end > start && blank(text[end - 1])
        invariant
            start <= end <= to <= text@.len(),
            forall|k: int| end <= k < to ==> is_blank(#[trigger] text@[k]),
        decreases end,
    {
        end -= 1;
    }
    (start, end)
}

/// Finds the value of the field `field_name` in `json_content`: the range of
/// the bytes between the field's first marker and the next comma (or,
/// failing a comma, the next closing brace), without the blanks around
/// them. `None` where the marker stands nowhere or nothing ends the value.
pub fn extract_json_field(json_content: &[u8], field_name: &[u8]) -> (value: Option<
    (usize, usize),
>)
    ensures
        match value {
            Some((start, end)) => start <= end <= json_content@.len() && value_found(
                json_content@,
                field_name@,
                start as int,
                end as int,
            ),
            None => value_missing(json_content@, field_name@),
        },
{
    let mut search_pattern: Vec<u8> = Vec::new();
    search_pattern.push(34);
    let mut k: usize = 0;
    while k < field_name.len()
        invariant
            k <= field_name@.len(),
            search_pattern@ == seq![34u8] + field_name@.subrange(0, k as int),
        decreases field_name@.len() - k,
    {
        search_pattern.push(field_name[k]);
        k += 1;
        assert(search_pattern@ =~= seq![34u8] + field_name@.subrange(0, k as int));
    }
    search_pattern.push(34);
    search_pattern.push(58);
    assert(search_pattern@ =~= field_marker(field_name@));
    let marker = match find_bytes(json_content, search_pattern.as_slice(), 0) {
        Some(at) => at,
        None => {
            return None;
        },
    };
    let total = json_content.len();
    assert(marker + search_pattern@.len() <= total);
    let start_pos = marker + search_pattern.len();
    let comma: [u8; 1] = [44];
    let brace: [u8; 1] = [125];
    assert(comma@ =~= seq![44u8]);
    assert(brace@ =~= seq![125u8]);
    let cut = match find_bytes(json_content, comma.as_slice(), start_pos) {
        Some(at) => at,
        None => match find_bytes(json_content, brace.as_slice(), start_pos) {
            Some(at) => at,
            None => {
                assert(first_at(json_content@, field_marker(field_name@), 0, marker as int));
                return None;
            },
        },
    };
    let (start, end) = trim_range(json_content, start_pos, cut);
    assert(first_at(json_content@, field_marker(field_name@), 0, marker as int));
    assert(trimmed_to(json_content@, start_pos as int, cut as int, start as int, end as int));
    Some((start, end))
}

} // verus!
