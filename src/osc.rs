//! Operating System Command sequences in terminal output: `ESC ] payload TERM`,
//! where TERM is BEL or `ESC \`. Working-directory (7) and clipboard (52)
//! payloads become events; every complete sequence is removed from the text.
use vstd::prelude::*;
use vstd::utf8::encode_utf8;
use crate::codec::{base64_decoded, bytes_view, decode_base64, text_from_decoded, text_of_bytes};
use crate::text::{chars_of, string_of_range};
use crate::urldecode::{url_decode, url_decode_range};

verus! {

/// Escape, which opens a sequence and the two-character terminator.
pub const ESC: char = '\x1b';

/// Bell, the one-character terminator.
pub const BEL: char = '\x07';

/// Clipboard payloads longer than this many characters are refused by default.
pub const DEFAULT_MAX_CLIPBOARD_SIZE: usize = 1048576;

/// Which selection a clipboard sequence addresses.
#[derive(Debug, Clone, Copy, PartialEq, Eq, Structural)]
pub enum ClipboardSelection {
    Clipboard,
    Primary,
    Secondary,
    Select,
    CutBuffer(u8),
}

/// The selection a selector character names, if any.
pub open spec fn selection_of_char(c: char) -> Option<ClipboardSelection> {
    if c == 'c' {
        Some(ClipboardSelection::Clipboard)
    } else if c == 'p' {
        Some(ClipboardSelection::Primary)
    } else if c == 'q' {
        Some(ClipboardSelection::Secondary)
    } else if c == 's' {
        Some(ClipboardSelection::Select)
    } else if '0' <= c && c <= '7' {
        Some(ClipboardSelection::CutBuffer((c as u32 - '0' as u32) as u8))
    } else {
        None
    }
}

impl ClipboardSelection {
    /// The selection a selector character names: `c`, `p`, `q`, `s` or a cut
    /// buffer `0` to `7`.
    pub fn from_char(c: char) -> (r: Option<ClipboardSelection>)
        ensures
            r == selection_of_char(c),
    {
        if c == 'c' {
            Some(ClipboardSelection::Clipboard)
        } else if c == 'p' {
            Some(ClipboardSelection::Primary)
        } else if c == 's' {
            Some(ClipboardSelection::Select)
        } else if c == 'q' {
            Some(ClipboardSelection::Secondary)
        } else if '0' <= c && c <= '7' {
            Some(ClipboardSelection::CutBuffer((c as u32 - '0' as u32) as u8))
        } else {
            None
        }
    }
}

/// Decoded clipboard content together with its selection.
#[derive(Debug, Clone, PartialEq, Eq)]
pub struct ClipboardData {
    pub selection: ClipboardSelection,
    pub content: String,
}

/// What one sequence means.
#[derive(Debug, Clone, PartialEq, Eq)]
pub enum OscSequence {
    WorkingDirectory(String),
    Clipboard(ClipboardData),
    Unknown,
}

/// The meaning of a sequence, over plain values.
pub enum OscEvent {
    WorkingDirectory(Seq<char>),
    Clipboard(ClipboardSelection, Seq<char>),
    Unknown,
}

impl View for OscSequence {
    type V = OscEvent;

    open spec fn view(&self) -> OscEvent {
        match self {
            OscSequence::WorkingDirectory(p) => OscEvent::WorkingDirectory(p@),
            OscSequence::Clipboard(d) => OscEvent::Clipboard(d.selection, d.content@),
            OscSequence::Unknown => OscEvent::Unknown,
        }
    }
}

/// A sequence found in a text, with the character range it occupies
/// (`start` inclusive, `end` exclusive, terminator included).
#[derive(Debug, Clone)]
pub struct OscParseResult {
    pub sequence: OscSequence,
    pub start: usize,
    pub end: usize,
}

/// A found sequence over plain values.
pub struct ScannedOsc {
    pub event: OscEvent,
    pub start: int,
    pub end: int,
}

impl View for OscParseResult {
    type V = ScannedOsc;

    open spec fn view(&self) -> ScannedOsc {
        ScannedOsc { event: self.sequence@, start: self.start as int, end: self.end as int }
    }
}

/// Whether `s` begins with `p`.
pub open spec fn has_prefix(s: Seq<char>, p: Seq<char>) -> bool {
    p.len() <= s.len() && s.subrange(0, p.len() as int) == p
}

/// The payload prefix of a working-directory sequence.
pub open spec fn cwd_tag() -> Seq<char> {
    seq!['7', ';']
}

/// The payload prefix of a clipboard sequence.
pub open spec fn clipboard_tag() -> Seq<char> {
    seq!['5', '2', ';']
}

/// The scheme of a file URL.
pub open spec fn file_scheme() -> Seq<char> {
    seq!['f', 'i', 'l', 'e', ':', '/', '/']
}

/// The first position at or after `pos` that holds `c`.
pub open spec fn index_of_from(s: Seq<char>, pos: int, c: char) -> Option<int>
    decreases s.len() - pos,
{
    if pos < 0 || pos >= s.len() {
        None
    } else if s[pos] == c {
        Some(pos)
    } else {
        index_of_from(s, pos + 1, c)
    }
}

/// The decoded path of a `file://host/path` URL; the host part may be empty.
pub open spec fn file_url_path(url: Seq<char>) -> Option<Seq<char>> {
    if has_prefix(url, file_scheme()) {
        let rest = url.skip(7);
        match index_of_from(rest, 0, '/') {
            Some(p) => Some(url_decode(rest.skip(p))),
            None => None,
        }
    } else {
        None
    }
}

/// The directory a working-directory payload (after `7;`) names: a file URL,
/// or an absolute path as some terminals send it.
pub open spec fn cwd_of(rest: Seq<char>) -> Option<Seq<char>> {
    match file_url_path(rest) {
        Some(p) => Some(p),
        None => if rest.len() > 0 && rest[0] == '/' {
            Some(url_decode(rest))
        } else {
            None
        },
    }
}

/// The selection a selector field names; anything unrecognised means the clipboard.
pub open spec fn selection_in(sel: Seq<char>) -> ClipboardSelection {
    if sel.len() > 0 {
        match selection_of_char(sel[0]) {
            Some(s) => s,
            None => ClipboardSelection::Clipboard,
        }
    } else {
        ClipboardSelection::Clipboard
    }
}

/// A clipboard payload (after `52;`): `selector;base64`. An empty base64 field
/// is a query with empty content; a field longer than `cap` characters, one
/// that is not base64, or one whose bytes are not UTF-8 gives nothing.
pub open spec fn clipboard_of(body: Seq<char>, cap: nat) -> Option<(ClipboardSelection, Seq<char>)> {
    match index_of_from(body, 0, ';') {
        None => None,
        Some(i) => {
            let sel = selection_in(body.take(i));
            let data = body.skip(i + 1);
            if data.len() > cap {
                None
            } else if data.len() == 0 {
                Some((sel, Seq::<char>::empty()))
            } else {
                match text_of_bytes(base64_decoded(data)) {
                    Some(t) => Some((sel, t)),
                    None => None,
                }
            }
        },
    }
}

/// The event a payload (the text between `ESC ]` and the terminator) denotes.
pub open spec fn osc_event(data: Seq<char>, cap: nat) -> OscEvent {
    if data.len() == 0 {
        OscEvent::Unknown
    } else if has_prefix(data, cwd_tag()) && cwd_of(data.skip(2)) is Some {
        match cwd_of(data.skip(2)) {
            Some(p) => OscEvent::WorkingDirectory(p),
            None => OscEvent::Unknown,
        }
    } else if has_prefix(data, clipboard_tag()) && clipboard_of(data.skip(3), cap) is Some {
        match clipboard_of(data.skip(3), cap) {
            Some((s, t)) => OscEvent::Clipboard(s, t),
            None => OscEvent::Unknown,
        }
    } else {
        OscEvent::Unknown
    }
}

/// Whether a sequence opens at `k`.
pub open spec fn is_osc_start(s: Seq<char>, k: int) -> bool {
    0 <= k && k + 1 < s.len() && s[k] == ESC && s[k + 1] == ']'
}

/// The first position at or after `pos` where a sequence opens.
pub open spec fn next_osc_start(s: Seq<char>, pos: int) -> Option<int>
    decreases s.len() - pos,
{
    if pos < 0 || pos + 1 >= s.len() {
        None
    } else if is_osc_start(s, pos) {
        Some(pos)
    } else {
        next_osc_start(s, pos + 1)
    }
}

/// The length of the terminator at `j`: 1 for BEL, 2 for `ESC \`, 0 for none.
pub open spec fn terminator_len(s: Seq<char>, j: int) -> int {
    if 0 <= j < s.len() && s[j] == BEL {
        1
    } else if 0 <= j && j + 1 < s.len() && s[j] == ESC && s[j + 1] == '\\' {
        2
    } else {
        0
    }
}

/// The first position at or after `pos` where a terminator stands.
pub open spec fn next_terminator(s: Seq<char>, pos: int) -> Option<int>
    decreases s.len() - pos,
{
    if pos < 0 || pos >= s.len() {
        None
    } else if terminator_len(s, pos) > 0 {
        Some(pos)
    } else {
        next_terminator(s, pos + 1)
    }
}

/// The first complete sequence at or after `pos`: where it starts, where its
/// payload ends and where its terminator ends. A sequence whose terminator never
/// comes is not complete, and neither is any later one.
pub open spec fn next_sequence(s: Seq<char>, pos: int) -> Option<(int, int, int)> {
    match next_osc_start(s, pos) {
        None => None,
        Some(k) => match next_terminator(s, k + 2) {
            None => None,
            Some(j) => Some((k, j, j + terminator_len(s, j))),
        },
    }
}

/// The complete sequences of `s` from `pos` on, in order.
pub open spec fn scan_from(s: Seq<char>, pos: int, cap: nat) -> Seq<ScannedOsc>
    decreases s.len() - pos,
{
    if pos < 0 || pos > s.len() {
        Seq::empty()
    } else {
        match next_sequence(s, pos) {
            None => Seq::empty(),
            Some((k, j, e)) => if pos < e <= s.len() {
                seq![ScannedOsc { event: osc_event(s.subrange(k + 2, j), cap), start: k, end: e }]
                    + scan_from(s, e, cap)
            } else {
                Seq::empty()
            },
        }
    }
}

/// The text of `s` from `pos` on with every complete sequence removed.
pub open spec fn strip_from(s: Seq<char>, pos: int) -> Seq<char>
    decreases s.len() - pos,
{
    if pos < 0 || pos > s.len() {
        Seq::empty()
    } else {
        match next_sequence(s, pos) {
            None => s.subrange(pos, s.len() as int),
            Some((k, j, e)) => if pos <= k && pos < e <= s.len() {
                s.subrange(pos, k) + strip_from(s, e)
            } else {
                Seq::empty()
            },
        }
    }
}

/// The events of a list of found sequences.
pub open spec fn events_of(found: Seq<ScannedOsc>) -> Seq<OscEvent> {
    found.map_values(|f: ScannedOsc| f.event)
}

proof fn lemma_next_osc_start(s: Seq<char>, pos: int)
    ensures
        next_osc_start(s, pos) matches Some(k) ==> pos <= k && is_osc_start(s, k),
    decreases s.len() - pos,
{
    if !(pos < 0 || pos + 1 >= s.len()) && !is_osc_start(s, pos) {
        lemma_next_osc_start(s, pos + 1);
    }
}

proof fn lemma_next_terminator(s: Seq<char>, pos: int)
    ensures
        next_terminator(s, pos) matches Some(j) ==> pos <= j && terminator_len(s, j) > 0 && j
            + terminator_len(s, j) <= s.len(),
    decreases s.len() - pos,
{
    if !(pos < 0 || pos >= s.len()) && terminator_len(s, pos) <= 0 {
        lemma_next_terminator(s, pos + 1);
    }
}

/// A found sequence starts at or after `pos` and ends after its payload.
proof fn lemma_next_sequence(s: Seq<char>, pos: int)
    ensures
        next_sequence(s, pos) matches Some((k, j, e)) ==> pos <= k && k + 2 <= j && j < e <= s.len()
            && is_osc_start(s, k),
{
    lemma_next_osc_start(s, pos);
    if let Some(k) = next_osc_start(s, pos) {
        lemma_next_terminator(s, k + 2);
    }
}

/// Removing sequences never makes the text longer, and keeps its length
/// exactly when there is no complete sequence to remove, the text being then
/// unchanged.
pub proof fn lemma_strip_not_longer(s: Seq<char>, pos: int)
    requires
        0 <= pos <= s.len(),
    ensures
        strip_from(s, pos).len() <= s.len() - pos,
        strip_from(s, pos).len() == s.len() - pos <==> next_sequence(s, pos) is None,
        next_sequence(s, pos) is None ==> strip_from(s, pos) == s.subrange(pos, s.len() as int),
    decreases s.len() - pos,
{
    lemma_next_sequence(s, pos);
    if let Some((k, j, e)) = next_sequence(s, pos) {
        lemma_strip_not_longer(s, e);
    }
}

/// Whether the found sequences lie in order, without overlap, inside
/// `s[pos..]`, each opening with `ESC ]` and ending after its terminator.
pub open spec fn ranges_ordered(s: Seq<char>, pos: int, found: Seq<ScannedOsc>) -> bool {
    &&& forall|i: int|
        0 <= i < found.len() ==> pos <= (#[trigger] found[i]).start && found[i].start + 3 <= found[i].end
            <= s.len() && is_osc_start(s, found[i].start)
    &&& forall|i: int| 0 <= i < found.len() - 1 ==> (#[trigger] found[i]).end <= found[i + 1].start
}

/// The sequences a scan finds lie in order and do not overlap.
pub proof fn lemma_scan_ordered(s: Seq<char>, pos: int, cap: nat)
    requires
        0 <= pos <= s.len(),
    ensures
        ranges_ordered(s, pos, scan_from(s, pos, cap)),
    decreases s.len() - pos,
{
    lemma_next_sequence(s, pos);
    if let Some((k, j, e)) = next_sequence(s, pos) {
        lemma_scan_ordered(s, e, cap);
        let rest = scan_from(s, e, cap);
        let all = scan_from(s, pos, cap);
        assert(all == seq![ScannedOsc { event: osc_event(s.subrange(k + 2, j), cap), start: k, end: e }] + rest);
        assert forall|i: int| 0 <= i < all.len() - 1 implies (#[trigger] all[i]).end <= all[i + 1].start by {
            if i == 0 {
                if rest.len() > 0 {
                    assert(all[1] == rest[0]);
                }
            } else {
                assert(all[i] == rest[i - 1] && all[i + 1] == rest[i]);
            }
        }
        assert forall|i: int| 0 <= i < all.len() implies pos <= (#[trigger] all[i]).start && all[i].start
            + 3 <= all[i].end <= s.len() && is_osc_start(s, all[i].start) by {
            if i > 0 {
                assert(all[i] == rest[i - 1]);
            }
        }
    }
}

proof fn lemma_encode_concat(a: Seq<char>, b: Seq<char>)
    ensures
        encode_utf8(a + b) == encode_utf8(a) + encode_utf8(b),
    decreases a.len(),
{
    if a.len() == 0 {
        assert(a + b =~= b);
        assert(encode_utf8(a) + encode_utf8(b) =~= encode_utf8(b));
    } else {
        assert((a + b)[0] == a[0]);
        assert((a + b).drop_first() =~= a.drop_first() + b);
        lemma_encode_concat(a.drop_first(), b);
        assert(encode_utf8(a + b) =~= encode_utf8(a) + encode_utf8(b));
    }
}

/// Removing sequences never makes the UTF-8 encoding of the text longer.
pub proof fn lemma_strip_not_longer_bytes(s: Seq<char>, pos: int)
    requires
        0 <= pos <= s.len(),
    ensures
        encode_utf8(strip_from(s, pos)).len() <= encode_utf8(s.subrange(pos, s.len() as int)).len(),
    decreases s.len() - pos,
{
    lemma_next_sequence(s, pos);
    if let Some((k, j, e)) = next_sequence(s, pos) {
        lemma_strip_not_longer_bytes(s, e);
        let head = s.subrange(pos, k);
        let mid = s.subrange(k, e);
        let tail = s.subrange(e, s.len() as int);
        assert(s.subrange(pos, s.len() as int) =~= head + (mid + tail));
        lemma_encode_concat(head, mid + tail);
        lemma_encode_concat(mid, tail);
        lemma_encode_concat(head, strip_from(s, e));
    } else {
        assert(strip_from(s, pos) == s.subrange(pos, s.len() as int));
    }
}

/// Finds where a sequence opens, at or after `pos`.
fn find_osc_start(v: &Vec<char>, pos: usize) -> (r: Option<usize>)
    ensures
        r matches Some(k) ==> next_osc_start(v@, pos as int) == Some(k as int),
        r is None ==> next_osc_start(v@, pos as int) is None,
{
    let mut i = pos;
    while v.len() > 1 && i < v.len() - 1
        invariant
            pos <= i,
            next_osc_start(v@, pos as int) == next_osc_start(v@, i as int),
        decreases v.len() - i,
    {
        if v[i] == ESC && v[i + 1] == ']' {
            return Some(i);
        }
        i = i + 1;
    }
    None
}

/// Finds where a terminator stands, at or after `pos`.
fn find_terminator(v: &Vec<char>, pos: usize) -> (r: Option<usize>)
    ensures
        r matches Some(j) ==> next_terminator(v@, pos as int) == Some(j as int),
        r is None ==> next_terminator(v@, pos as int) is None,
{
    let mut i = pos;
    while i < v.len()
        invariant
            pos <= i,
            next_terminator(v@, pos as int) == next_terminator(v@, i as int),
        decreases v.len() - i,
    {
        if v[i] == BEL || (v[i] == ESC && i + 1 < v.len() && v[i + 1] == '\\') {
            return Some(i);
        }
        i = i + 1;
    }
    None
}

/// Finds `c` in `v[lo..hi]`; the result is absolute.
fn find_char_in(v: &Vec<char>, lo: usize, hi: usize, c: char) -> (r: Option<usize>)
    requires
        lo <= hi <= v@.len(),
    ensures
        r matches Some(i) ==> lo <= i < hi && index_of_from(v@.subrange(lo as int, hi as int), 0, c)
            == Some(i - lo),
        r is None ==> index_of_from(v@.subrange(lo as int, hi as int), 0, c) is None,
{
    let ghost sub = v@.subrange(lo as int, hi as int);
    let mut i = lo;
    while i < hi
        invariant
            lo <= i <= hi <= v@.len(),
            sub == v@.subrange(lo as int, hi as int),
            index_of_from(sub, 0, c) == index_of_from(sub, i - lo, c),
        decreases hi - i,
    {
        if v[i] == c {
            return Some(i);
        }
        i = i + 1;
    }
    None
}

/// Whether `v[lo..hi]` begins with `p`.
fn range_has_prefix(v: &Vec<char>, lo: usize, hi: usize, p: &Vec<char>) -> (r: bool)
    requires
        lo <= hi <= v@.len(),
    ensures
        r == has_prefix(v@.subrange(lo as int, hi as int), p@),
{
    if p.len() > hi - lo {
        return false;
    }
    let mut i: usize = 0;
    while i < p.len()
        invariant
            p@.len() <= hi - lo,
            lo <= hi <= v@.len(),
            i <= p@.len(),
            forall|k: int| 0 <= k < i ==> v@[lo + k] == p@[k],
        decreases p.len() - i,
    {
        if v[lo + i] != p[i] {
            assert(v@.subrange(lo as int, hi as int).subrange(0, p@.len() as int)[i as int] != p@[i as int]);
            return false;
        }
        i = i + 1;
    }
    assert(v@.subrange(lo as int, hi as int).subrange(0, p@.len() as int) =~= p@);
    true
}

/// The clipboard content that `decoded` stands for: present when the bytes are
/// present and well-formed UTF-8.
pub fn clipboard_from_decoded(selection: ClipboardSelection, decoded: Option<Vec<u8>>) -> (r: Option<
    ClipboardData,
>)
    ensures
        r matches Some(d) ==> d.selection == selection && text_of_bytes(bytes_view(decoded)) == Some(
            d.content@,
        ),
        r is None ==> text_of_bytes(bytes_view(decoded)) is None,
{
    match text_from_decoded(decoded) {
        Some(content) => Some(ClipboardData { selection, content }),
        None => None,
    }
}

/// Recognises and decodes OSC 7 and OSC 52 payloads.
pub struct OscHandler {
    max_clipboard_size: usize,
}

impl OscHandler {
    /// The largest clipboard payload, in characters, this handler accepts.
    pub closed spec fn cap(&self) -> nat {
        self.max_clipboard_size as nat
    }

    /// A handler accepting clipboard payloads up to 1 MiB.
    pub fn new() -> (r: OscHandler)
        ensures
            r.cap() == DEFAULT_MAX_CLIPBOARD_SIZE,
    {
        OscHandler { max_clipboard_size: DEFAULT_MAX_CLIPBOARD_SIZE }
    }

    /// The same handler with the clipboard limit set to `size`.
    pub fn with_max_clipboard_size(self, size: usize) -> (r: OscHandler)
        ensures
            r.cap() == size,
    {
        OscHandler { max_clipboard_size: size }
    }

    pub fn max_clipboard_size(&self) -> (r: usize)
        ensures
            r == self.cap(),
    {
        self.max_clipboard_size
    }

    /// The event a payload denotes (the payload excludes `ESC ]` and the terminator).
    pub fn parse(&self, data: &str) -> (r: OscSequence)
        ensures
            r@ == osc_event(data@, self.cap()),
    {
        let v = chars_of(data);
        assert(v@.subrange(0, v@.len() as int) =~= v@);
        self.parse_range(&v, 0, v.len())
    }

    /// The event the payload `v[lo..hi]` denotes.
    fn parse_range(&self, v: &Vec<char>, lo: usize, hi: usize) -> (r: OscSequence)
        requires
            lo <= hi <= v@.len(),
        ensures
            r@ == osc_event(v@.subrange(lo as int, hi as int), self.cap()),
    {
        let ghost data = v@.subrange(lo as int, hi as int);
        if lo == hi {
            return OscSequence::Unknown;
        }
        let seven = vec!['7', ';'];
        assert(seven@ =~= cwd_tag());
        if range_has_prefix(v, lo, hi, &seven) {
            assert(data.skip(2) =~= v@.subrange(lo + 2, hi as int));
            if let Some(path) = self.cwd_range(v, lo + 2, hi) {
                return OscSequence::WorkingDirectory(path);
            }
        }
        let fifty_two = vec!['5', '2', ';'];
        assert(fifty_two@ =~= clipboard_tag());
        if range_has_prefix(v, lo, hi, &fifty_two) {
            assert(data.skip(3) =~= v@.subrange(lo + 3, hi as int));
            if let Some(clip) = self.clipboard_range(v, lo + 3, hi) {
                return OscSequence::Clipboard(clip);
            }
        }
        OscSequence::Unknown
    }

    /// The directory a working-directory payload `v[lo..hi]` names.
    fn cwd_range(&self, v: &Vec<char>, lo: usize, hi: usize) -> (r: Option<String>)
        requires
            lo <= hi <= v@.len(),
        ensures
            r matches Some(p) ==> cwd_of(v@.subrange(lo as int, hi as int)) == Some(p@),
            r is None ==> cwd_of(v@.subrange(lo as int, hi as int)) is None,
    {
        if let Some(p) = self.parse_file_url(v, lo, hi) {
            return Some(p);
        }
        if lo < hi && v[lo] == '/' {
            return Some(url_decode_range(v, lo, hi));
        }
        None
    }

    /// The decoded path of a `file://` URL in `v[lo..hi]`.
    fn parse_file_url(&self, v: &Vec<char>, lo: usize, hi: usize) -> (r: Option<String>)
        requires
            lo <= hi <= v@.len(),
        ensures
            r matches Some(p) ==> file_url_path(v@.subrange(lo as int, hi as int)) == Some(p@),
            r is None ==> file_url_path(v@.subrange(lo as int, hi as int)) is None,
    {
        let ghost url = v@.subrange(lo as int, hi as int);
        let scheme = vec!['f', 'i', 'l', 'e', ':', '/', '/'];
        assert(scheme@ =~= file_scheme());
        if !range_has_prefix(v, lo, hi, &scheme) {
            return None;
        }
        assert(url.skip(7) =~= v@.subrange(lo + 7, hi as int));
        match find_char_in(v, lo + 7, hi, '/') {
            Some(p) => {
                assert(url.skip(7).skip(p - (lo + 7)) =~= v@.subrange(p as int, hi as int));
                Some(url_decode_range(v, p, hi))
            },
            None => None,
        }
    }

    /// The clipboard payload `v[lo..hi]` (after `52;`).
    fn clipboard_range(&self, v: &Vec<char>, lo: usize, hi: usize) -> (r: Option<ClipboardData>)
        requires
            lo <= hi <= v@.len(),
        ensures
            r matches Some(d) ==> clipboard_of(v@.subrange(lo as int, hi as int), self.cap()) == Some(
                (d.selection, d.content@),
            ),
            r is None ==> clipboard_of(v@.subrange(lo as int, hi as int), self.cap()) is None,
    {
        let ghost body = v@.subrange(lo as int, hi as int);
        let semi = match find_char_in(v, lo, hi, ';') {
            Some(i) => i,
            None => {
                return None;
            },
        };
        let selection = if semi > lo {
            match ClipboardSelection::from_char(v[lo]) {
                Some(s) => s,
                None => ClipboardSelection::Clipboard,
            }
        } else {
            ClipboardSelection::Clipboard
        };
        proof {
            assert(body.take(semi - lo) =~= v@.subrange(lo as int, semi as int));
            assert(body.skip(semi - lo + 1) =~= v@.subrange(semi + 1, hi as int));
            if semi > lo {
                assert(body.take(semi - lo)[0] == v@[lo as int]);
            }
        }
        // the limit counts characters; text holding anything but the base64
        // alphabet is refused by the decoder whatever its length
        if hi - (semi + 1) > self.max_clipboard_size {
            return None;
        }
        if semi + 1 == hi {
            return Some(ClipboardData { selection, content: String::new() });
        }
        let data = string_of_range(v, semi + 1, hi);
        let decoded = decode_base64(data.as_str());
        clipboard_from_decoded(selection, decoded)
    }

    /// Copies a sequence.
    fn copy_sequence(s: &OscSequence) -> (r: OscSequence)
        ensures
            r@ == s@,
    {
        match s {
            OscSequence::WorkingDirectory(p) => OscSequence::WorkingDirectory(p.clone()),
            OscSequence::Clipboard(d) => OscSequence::Clipboard(
                ClipboardData { selection: d.selection, content: d.content.clone() },
            ),
            OscSequence::Unknown => OscSequence::Unknown,
        }
    }

    /// One pass over `v`: the complete sequences with their ranges, the text
    /// without them, and their events.
    fn scan(&self, v: &Vec<char>) -> (r: (Vec<OscParseResult>, String, Vec<OscSequence>))
        ensures
            r.0@.map_values(|x: OscParseResult| x@) == scan_from(v@, 0, self.cap()),
            r.1@ == strip_from(v@, 0),
            r.2@.map_values(|x: OscSequence| x@) == events_of(scan_from(v@, 0, self.cap())),
    {
        let mut results: Vec<OscParseResult> = Vec::new();
        let mut events: Vec<OscSequence> = Vec::new();
        let mut stripped = String::new();
        let mut pos: usize = 0;
        loop
            invariant_except_break
                pos <= v@.len(),
                results@.map_values(|x: OscParseResult| x@) + scan_from(v@, pos as int, self.cap())
                    == scan_from(v@, 0, self.cap()),
                events@.map_values(|x: OscSequence| x@) + events_of(
                    scan_from(v@, pos as int, self.cap()),
                ) == events_of(scan_from(v@, 0, self.cap())),
                stripped@ + strip_from(v@, pos as int) == strip_from(v@, 0),
            ensures
                results@.map_values(|x: OscParseResult| x@) == scan_from(v@, 0, self.cap()),
                events@.map_values(|x: OscSequence| x@) == events_of(scan_from(v@, 0, self.cap())),
                stripped@ == strip_from(v@, 0),
            decreases v@.len() - pos,
        {
            proof {
                lemma_next_sequence(v@, pos as int);
                lemma_next_osc_start(v@, pos as int);
            }
            let found = match find_osc_start(v, pos) {
                Some(k) => {
                    proof {
                        assert(next_osc_start(v@, pos as int) == Some(k as int));
                        assert(is_osc_start(v@, k as int));
                        lemma_next_terminator(v@, k + 2);
                    }
                    let n = v.len();
                    assert(k + 1 < n);
                    match find_terminator(v, k + 2) {
                        Some(j) => Some((k, j)),
                        None => None,
                    }
                },
                None => None,
            };
            match found {
                None => {
                    let tail = string_of_range(v, pos, v.len());
                    stripped.append(tail.as_str());
                    proof {
                        assert(results@.map_values(|x: OscParseResult| x@) + Seq::<ScannedOsc>::empty()
                            =~= results@.map_values(|x: OscParseResult| x@));
                        assert(events_of(Seq::<ScannedOsc>::empty()) =~= Seq::<OscEvent>::empty());
                        assert(events@.map_values(|x: OscSequence| x@) + Seq::<OscEvent>::empty()
                            =~= events@.map_values(|x: OscSequence| x@));
                    }
                    break;
                },
                Some((k, j)) => {
                    let tlen: usize = if v[j] == BEL {
                        1
                    } else {
                        2
                    };
                    let n = v.len();
                    proof {
                        assert(next_terminator(v@, k + 2) == Some(j as int));
                        assert(j + terminator_len(v@, j as int) <= v@.len());
                        assert(terminator_len(v@, j as int) == tlen);
                        assert(j + tlen <= n);
                    }
                    let end = j + tlen;
                    let sequence = self.parse_range(v, k + 2, j);
                    let event_copy = Self::copy_sequence(&sequence);
                    let piece = string_of_range(v, pos, k);
                    let ghost old_results = results@;
                    let ghost old_events = events@;
                    let ghost found_here = ScannedOsc {
                        event: osc_event(v@.subrange(k + 2, j as int), self.cap()),
                        start: k as int,
                        end: end as int,
                    };
                    stripped.append(piece.as_str());
                    results.push(OscParseResult { sequence, start: k, end });
                    events.push(event_copy);
                    proof {
                        assert(results@.map_values(|x: OscParseResult| x@) =~= old_results.map_values(
                            |x: OscParseResult| x@,
                        ).push(found_here));
                        assert(events@.map_values(|x: OscSequence| x@) =~= old_events.map_values(
                            |x: OscSequence| x@,
                        ).push(found_here.event));
                        let rest = scan_from(v@, end as int, self.cap());
                        assert(scan_from(v@, pos as int, self.cap()) == seq![found_here] + rest);
                        assert(old_results.map_values(|x: OscParseResult| x@) + (seq![found_here]
                            + rest) =~= old_results.map_values(|x: OscParseResult| x@).push(found_here)
                            + rest);
                        assert(events_of(seq![found_here] + rest) =~= seq![found_here.event]
                            + events_of(rest));
                        assert(old_events.map_values(|x: OscSequence| x@) + (seq![found_here.event]
                            + events_of(rest)) =~= old_events.map_values(|x: OscSequence| x@).push(
                            found_here.event,
                        ) + events_of(rest));
                    }
                    pos = end;
                },
            }
        }
        (results, stripped, events)
    }

    /// Every complete sequence of `data`, in order, with its character range.
    pub fn extract_sequences(&self, data: &str) -> (r: Vec<OscParseResult>)
        ensures
            r@.map_values(|x: OscParseResult| x@) == scan_from(data@, 0, self.cap()),
            ranges_ordered(data@, 0, scan_from(data@, 0, self.cap())),
    {
        proof {
            lemma_scan_ordered(data@, 0, self.cap());
        }
        let v = chars_of(data);
        let (results, _, _) = self.scan(&v);
        results
    }

    /// `data` with every complete sequence removed, and the events of those
    /// sequences in order. A sequence still open at the end stays in the text.
    pub fn strip_sequences(&self, data: &str) -> (r: (String, Vec<OscSequence>))
        ensures
            r.0@ == strip_from(data@, 0),
            r.1@.map_values(|x: OscSequence| x@) == events_of(scan_from(data@, 0, self.cap())),
            r.0@.len() <= data@.len(),
            r.0@.len() == data@.len() <==> next_sequence(data@, 0) is None,
            next_sequence(data@, 0) is None ==> r.0@ == data@,
            encode_utf8(r.0@).len() <= encode_utf8(data@).len(),
    {
        let v = chars_of(data);
        let (_, stripped, events) = self.scan(&v);
        proof {
            lemma_strip_not_longer(v@, 0);
            lemma_strip_not_longer_bytes(v@, 0);
            assert(v@.subrange(0, v@.len() as int) =~= v@);
        }
        (stripped, events)
    }
}

impl Default for OscHandler {
    fn default() -> (r: OscHandler)
        ensures
            r.cap() == DEFAULT_MAX_CLIPBOARD_SIZE,
    {
        OscHandler::new()
    }
}

} // verus!
