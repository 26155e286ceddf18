//! How listings are laid out on the terminal: shortened titles, counters,
//! labels and bars.

use vstd::prelude::*;
use crate::text::{chars_of, decimal, decimal_chars, extend_chars, extend_str, pad_left, pad_left_chars, string_of};

verus! {

broadcast use vstd::string::group_string_axioms;

/// The characters `...`.
pub open spec fn ellipsis() -> Seq<char> {
    seq!['.', '.', '.']
}

/// A title as a listing shows it: titles of more than 30 characters are cut
/// to their first 27 characters followed by `...`.
pub open spec fn short_title(t: Seq<char>) -> Seq<char> {
    if t.len() > 30 {
        t.take(27) + ellipsis()
    } else {
        t
    }
}

/// Shortens a title for a listing column.
pub fn shorten_title(title: &str) -> (out: String)
    ensures
        out@ == short_title(title@),
{
    let t = chars_of(title);
    if t.len() > 30 {
        let mut v: Vec<char> = Vec::new();
        let mut i: usize = 0;
        while i < 27
            invariant
                t@.len() > 30,
                i <= 27,
                v@ == t@.take(i as int),
            decreases 27 - i,
        {
            v.push(t[i]);
            i = i + 1;
            assert(t@.take(i as int) =~= t@.take(i - 1).push(t@[i - 1]));
        }
        v.push('.');
        v.push('.');
        v.push('.');
        assert(v@ =~= t@.take(27) + ellipsis());
        string_of(v.as_slice())
    } else {
        string_of(t.as_slice())
    }
}

/// How many items a listing of `total` items leaves out when it shows at most
/// `limit` of them; nothing when all are shown.
pub fn hidden_count(total: usize, limit: usize) -> (more: Option<usize>)
    ensures
        total > limit ==> more == Some((total - limit) as usize),
        total <= limit ==> more is None,
{
    if total > limit {
        Some(total - limit)
    } else {
        None
    }
}

/// A duration in seconds as minutes and seconds, `<m>m <s>s`.
pub open spec fn talk_time(secs: nat) -> Seq<char> {
    decimal(secs / 60) + seq!['m', ' '] + decimal(secs % 60) + seq!['s']
}

/// Writes a duration in seconds as minutes and seconds.
pub fn format_talk_time(secs: u64) -> (out: String)
    ensures
        out@ == talk_time(secs as nat),
{
    let mut v = decimal_chars(secs / 60);
    v.push('m');
    v.push(' ');
    let s = decimal_chars(secs % 60);
    extend_chars(&mut v, s.as_slice());
    v.push('s');
    assert(v@ =~= talk_time(secs as nat));
    string_of(v.as_slice())
}

/// Tags written as `#tag`, separated by single spaces.
pub open spec fn hash_tags(tags: Seq<Seq<char>>) -> Seq<char>
    decreases tags.len(),
{
    if tags.len() == 0 {
        seq![]
    } else if tags.len() == 1 {
        seq!['#'] + tags[0]
    } else {
        hash_tags(tags.drop_last()) + seq![' ', '#'] + tags.last()
    }
}

/// The tags column of a note: `-` when the note has no tag.
pub open spec fn tags_label(tags: Seq<Seq<char>>) -> Seq<char> {
    if tags.len() == 0 {
        seq!['-']
    } else {
        hash_tags(tags)
    }
}

/// The texts held by a list of strings.
pub open spec fn string_texts(v: Seq<String>) -> Seq<Seq<char>> {
    v.map_values(|s: String| s@)
}

/// Writes the tags column of a note.
pub fn format_tags(tags: &Vec<String>) -> (out: String)
    ensures
        out@ == tags_label(string_texts(tags@)),
{
    let ghost ts = string_texts(tags@);
    if tags.len() == 0 {
        let mut v: Vec<char> = Vec::new();
        v.push('-');
        assert(v@ =~= seq!['-']);
        return string_of(v.as_slice());
    }
    let mut v: Vec<char> = Vec::new();
    let mut i: usize = 0;
    while i < tags.len()
        invariant
            ts == string_texts(tags@),
            tags@.len() > 0,
            i <= tags@.len(),
            v@ == hash_tags(ts.take(i as int)),
        decreases tags@.len() - i,
    {
        let t = chars_of(tags[i].as_str());
        let ghost prev = ts.take(i as int);
        let ghost next = ts.take(i + 1);
        assert(next.drop_last() =~= prev);
        assert(next.last() == t@);
        if i > 0 {
            v.push(' ');
        }
        v.push('#');
        extend_chars(&mut v, t.as_slice());
        if i == 0 {
            assert(v@ =~= hash_tags(next));
        } else {
            assert(v@ =~= hash_tags(next));
        }
        i = i + 1;
    }
    assert(ts.take(tags@.len() as int) =~= ts);
    string_of(v.as_slice())
}

/// The marker put before the title of a pinned note.
pub open spec fn pin_marker() -> Seq<char> {
    seq!['\u{1F4CC}', ' ']
}

/// The title column of a note, marked when the note is pinned.
pub fn note_heading(pinned: bool, title: &str) -> (out: String)
    ensures
        out@ == (if pinned { pin_marker() + title@ } else { title@ }),
{
    let mut v: Vec<char> = Vec::new();
    if pinned {
        v.push('\u{1F4CC}');
        v.push(' ');
    }
    extend_str(&mut v, title);
    assert(v@ =~= (if pinned { pin_marker() + title@ } else { title@ }));
    string_of(v.as_slice())
}

/// `n` copies of `c`.
pub open spec fn repeat_char(c: char, n: nat) -> Seq<char> {
    Seq::new(n, |i: int| c)
}

fn push_repeat(v: &mut Vec<char>, c: char, n: usize)
    ensures
        final(v)@ == old(v)@ + repeat_char(c, n as nat),
{
    let mut i: usize = 0;
    while i < n
        invariant
            i <= n,
            v@ == old(v)@ + repeat_char(c, i as nat),
        decreases n - i,
    {
        v.push(c);
        i = i + 1;
        assert(v@ =~= old(v)@ + repeat_char(c, i as nat));
    }
}

/// What the desktop front end shows of an analysed audio file.
pub struct AudioAnalysisResult {
    pub format: String,
    pub category: String,
    pub title: Option<String>,
    pub artist: Option<String>,
    pub waveform_points: Vec<u8>,
}

/// One line of the waveform view: the peak level right-aligned in three
/// columns, `% | `, and one block per five levels of the peak.
pub open spec fn waveform_line(peak: u8) -> Seq<char> {
    pad_left(decimal(peak as nat), 3) + seq!['%', ' ', '|', ' '] + repeat_char('\u{2588}', (peak / 5) as nat)
}

/// Writes one line of the waveform view.
pub fn format_waveform_line(peak: u8) -> (out: String)
    ensures
        out@ == waveform_line(peak),
{
    let digits = decimal_chars(peak as u64);
    let mut v = pad_left_chars(digits.as_slice(), 3);
    v.push('%');
    v.push(' ');
    v.push('|');
    v.push(' ');
    push_repeat(&mut v, '\u{2588}', (peak / 5) as usize);
    assert(v@ =~= waveform_line(peak));
    string_of(v.as_slice())
}

/// The cells of the storage bar: each part takes as many cells as it asks
/// for while room is left, and the cells that remain are filled with `·`.
pub open spec fn bar_cells(parts: Seq<(char, usize)>, room: nat) -> Seq<char>
    decreases parts.len(),
{
    if parts.len() == 0 {
        repeat_char('\u{b7}', room)
    } else {
        let take: nat = if (parts[0].1 as nat) < room { parts[0].1 as nat } else { room };
        repeat_char(parts[0].0, take) + bar_cells(parts.drop_first(), (room - take) as nat)
    }
}

proof fn lemma_bar_cells_len(parts: Seq<(char, usize)>, room: nat)
    ensures
        bar_cells(parts, room).len() == room,
    decreases parts.len(),
{
    if parts.len() > 0 {
        let take: nat = if (parts[0].1 as nat) < room { parts[0].1 as nat } else { room };
        lemma_bar_cells_len(parts.drop_first(), (room - take) as nat);
    }
}

/// The width of the storage bar, in cells.
pub const STORAGE_BAR_WIDTH: usize = 40;

/// Lays out the storage bar from each category's symbol and the number of
/// cells its share rounds to.
pub fn storage_bar(parts: &Vec<(char, usize)>) -> (out: String)
    ensures
        out@ == bar_cells(parts@, STORAGE_BAR_WIDTH as nat),
        out@.len() == STORAGE_BAR_WIDTH,
{
    let n = parts.len();
    let mut v: Vec<char> = Vec::new();
    let mut room: usize = STORAGE_BAR_WIDTH;
    let mut i: usize = 0;
    assert(parts@.subrange(0, n as int) =~= parts@);
    while i < n
        invariant
            n == parts@.len(),
            i <= n,
            room <= STORAGE_BAR_WIDTH,
            bar_cells(parts@, STORAGE_BAR_WIDTH as nat) == v@ + bar_cells(parts@.subrange(i as int, n as int), room as nat),
        decreases n - i,
    {
        let (sym, want) = parts[i];
        let take = if want < room { want } else { room };
        let ghost rest = parts@.subrange(i as int, n as int);
        assert(rest.drop_first() =~= parts@.subrange(i + 1, n as int));
        assert(rest[0] == (sym, want));
        push_repeat(&mut v, sym, take);
        room = room - take;
        i = i + 1;
        assert(bar_cells(parts@, STORAGE_BAR_WIDTH as nat) =~= v@ + bar_cells(parts@.subrange(i as int, n as int), room as nat));
    }
    push_repeat(&mut v, '\u{b7}', room);
    assert(v@ =~= bar_cells(parts@, STORAGE_BAR_WIDTH as nat));
    proof {
        lemma_bar_cells_len(parts@, STORAGE_BAR_WIDTH as nat);
    }
    string_of(v.as_slice())
}

/// An entry of a numbered list: its number counted from one, `. `, and the text.
pub fn numbered_entry(index: usize, text: &str) -> (out: String)
    requires
        index < usize::MAX,
    ensures
        out@ == decimal((index + 1) as nat) + seq!['.', ' '] + text@,
{
    let mut v = decimal_chars((index + 1) as u64);
    v.push('.');
    v.push(' ');
    extend_str(&mut v, text);
    assert(v@ =~= decimal((index + 1) as nat) + seq!['.', ' '] + text@);
    string_of(v.as_slice())
}

/// The system column of the device list: system versions longer than ten
/// bytes of UTF-8 (the length `str::len` reports; media-transfer devices
/// report such long versions) are shown as `MTP`.
pub fn os_label(os_version: &str) -> (out: String)
    ensures
        os_version.len() > 10 ==> out@ == seq!['M', 'T', 'P'],
        os_version.len() <= 10 ==> out@ == os_version@,
{
    if os_version.len() > 10 {
        let mut v: Vec<char> = Vec::new();
        v.push('M');
        v.push('T');
        v.push('P');
        assert(v@ =~= seq!['M', 'T', 'P']);
        string_of(v.as_slice())
    } else {
        os_version.to_owned()
    }
}

/// `Yes` or `No`, as the hidden and metered columns show a flag.
pub fn yes_no(flag: bool) -> (out: String)
    ensures
        out@ == (if flag { seq!['Y', 'e', 's'] } else { seq!['N', 'o'] }),
{
    let mut v: Vec<char> = Vec::new();
    if flag {
        v.push('Y');
        v.push('e');
        v.push('s');
    } else {
        v.push('N');
        v.push('o');
    }
    assert(v@ =~= (if flag { seq!['Y', 'e', 's'] } else { seq!['N', 'o'] }));
    string_of(v.as_slice())
}

/// The id given to the call record at `index` of a device's call log:
/// `call_` and its position counted from one.
pub fn call_item_id(index: usize) -> (id: String)
    requires
        index < usize::MAX,
    ensures
        id@ == seq!['c', 'a', 'l', 'l', '_'] + decimal((index + 1) as nat),
{
    let mut v: Vec<char> = Vec::new();
    v.push('c');
    v.push('a');
    v.push('l');
    v.push('l');
    v.push('_');
    let d = decimal_chars((index + 1) as u64);
    extend_chars(&mut v, d.as_slice());
    string_of(v.as_slice())
}

/// How two overlapping calendar events are reported.
pub fn conflict_label(first: &str, second: &str) -> (label: String)
    ensures
        label@ == "Conflict between '"@ + first@ + "' and '"@ + second@ + "'"@,
{
    let mut v = chars_of("Conflict between '");
    extend_str(&mut v, first);
    extend_str(&mut v, "' and '");
    extend_str(&mut v, second);
    extend_str(&mut v, "'");
    string_of(v.as_slice())
}

} // verus!
