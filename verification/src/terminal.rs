//! Terminal input events and the decoding of the bytes a terminal sends,
//! with a plainer form of the terminal operations in its submodules.
pub mod cursor;
pub mod erase;
pub mod resize;
pub mod text;

use vstd::prelude::*;

use crate::control::{control_bytes, csi_private, format_control, ControlCode, DecMode};
use crate::keys::{decode, lemma_decode_within, Key, Keys};

verus! {

/// An event of a terminal.
#[derive(Clone, Debug, PartialEq, Eq)]
pub enum Event {
    /// The input has ended.
    Close,
    /// The terminal was resized.
    Resize,
    /// The terminal gained (`true`) or lost (`false`) focus.
    Focus(bool),
    /// Text was pasted.
    Paste(Vec<u8>),
    /// A key was pressed.
    Key(Key),
}

/// An event, with pasted text taken by its bytes.
pub enum EventView {
    Close,
    Resize,
    Focus(bool),
    Paste(Seq<u8>),
    Key(Key),
}

impl View for Event {
    type V = EventView;

    open spec fn view(&self) -> EventView {
        match self {
            Event::Close => EventView::Close,
            Event::Resize => EventView::Resize,
            Event::Focus(b) => EventView::Focus(*b),
            Event::Paste(v) => EventView::Paste(v@),
            Event::Key(k) => EventView::Key(*k),
        }
    }
}

/// The views of a list of events.
pub open spec fn event_views(v: Seq<Event>) -> Seq<EventView> {
    v.map_values(|e: Event| e@)
}

/// The sequence a terminal sends before pasted text.
pub open spec fn paste_start() -> Seq<u8> {
    seq![0x1Bu8, 0x5Bu8, 0x32u8, 0x30u8, 0x30u8, 0x7Eu8]
}

/// The sequence a terminal sends after pasted text.
pub open spec fn paste_end() -> Seq<u8> {
    seq![0x1Bu8, 0x5Bu8, 0x32u8, 0x30u8, 0x31u8, 0x7Eu8]
}

/// The sequence a terminal sends when it gains focus.
pub open spec fn focus_in() -> Seq<u8> {
    seq![0x1Bu8, 0x5Bu8, 0x49u8]
}

/// The sequence a terminal sends when it loses focus.
pub open spec fn focus_out() -> Seq<u8> {
    seq![0x1Bu8, 0x5Bu8, 0x4Fu8]
}

/// Whether `s` starts with `p`.
pub open spec fn begins(s: Seq<u8>, p: Seq<u8>) -> bool {
    p.len() <= s.len() && s.take(p.len() as int) == p
}

/// Whether the end of a paste starts at index `i` of `s`.
pub open spec fn ends_at(s: Seq<u8>, i: int) -> bool {
    0 <= i <= s.len() && begins(s.skip(i), paste_end())
}

/// The first index of `s` at which the end of a paste starts, if any.
pub open spec fn first_end(s: Seq<u8>) -> Option<int> {
    if exists|i: int| ends_at(s, i) {
        Some(choose|i: int| ends_at(s, i) && forall|j: int| 0 <= j < i ==> !ends_at(s, j))
    } else {
        None
    }
}

/// The events a key decoding yields.
pub open spec fn key_events(key: Option<Key>) -> Seq<EventView> {
    match key {
        Some(k) => seq![EventView::Key(k)],
        None => Seq::empty(),
    }
}

/// `events` before what `rest` holds, if it holds anything.
pub open spec fn prefixed(
    events: Seq<EventView>,
    rest: Option<(Seq<EventView>, Option<Seq<u8>>)>,
) -> Option<(Seq<EventView>, Option<Seq<u8>>)> {
    match rest {
        Some((e, p)) => Some((events + e, p)),
        None => None,
    }
}

/// What decoding `input` against the key table `table` yields, with `paste`
/// the text of a paste whose end has not come yet: the events and the paste
/// left open. `None` where decoding would not end or would index past the
/// input: where a paste has begun and no end of it follows, or where a key
/// decodes from no byte at all.
#[verifier::opaque]
pub open spec fn decode_input(
    table: Map<Seq<u8>, Key>,
    paste: Option<Seq<u8>>,
    input: Seq<u8>,
) -> Option<(Seq<EventView>, Option<Seq<u8>>)>
    decreases input.len(),
{
    if input.len() == 0 {
        Some((Seq::empty(), paste))
    } else if paste is Some || begins(input, paste_start()) {
        let body = if paste is Some {
            input
        } else {
            input.skip(6)
        };
        let text = if paste is Some {
            paste.unwrap()
        } else {
            Seq::empty()
        };
        match first_end(body) {
            Some(i) => {
                if 0 <= i && i + 6 <= body.len() {
                    prefixed(
                        seq![EventView::Paste(text + body.take(i))],
                        decode_input(table, None, body.skip(i + 6)),
                    )
                } else {
                    None
                }
            },
            None => if body.len() == 0 {
                Some((Seq::empty(), Some(text)))
            } else {
                None
            },
        }
    } else if begins(input, focus_in()) {
        prefixed(seq![EventView::Focus(true)], decode_input(table, paste, input.skip(3)))
    } else if begins(input, focus_out()) {
        prefixed(seq![EventView::Focus(false)], decode_input(table, paste, input.skip(3)))
    } else {
        match decode(table, input) {
            Some((n, key)) => {
                if 0 < n <= input.len() {
                    prefixed(key_events(key), decode_input(table, paste, input.skip(n)))
                } else {
                    None
                }
            },
            None => None,
        }
    }
}

/// Whether `p` starts `s`.
fn begins_with(s: &[u8], p: &[u8]) -> (r: bool)
    ensures
        r == begins(s@, p@),
{
    if p.len() > s.len() {
        return false;
    }
    let mut i: usize = 0;
    while i < p.len()
        invariant
            p@.len() <= s@.len(),
            i <= p@.len(),
            forall|k: int| 0 <= k < i ==> s@[k] == p@[k],
        decreases p@.len() - i,
    {
        if s[i] != p[i] {
            assert(s@.take(p@.len() as int)[i as int] != p@[i as int]);
            return false;
        }
        i = i + 1;
    }
    assert(s@.take(p@.len() as int) =~= p@);
    true
}

/// The sequences the decoder recognizes.
fn paste_start_bytes() -> (r: Vec<u8>)
    ensures
        r@ == paste_start(),
{
    let r = vec![0x1Bu8, 0x5Bu8, 0x32u8, 0x30u8, 0x30u8, 0x7Eu8];
    assert(r@ =~= paste_start());
    r
}

fn paste_end_bytes() -> (r: Vec<u8>)
    ensures
        r@ == paste_end(),
{
    let r = vec![0x1Bu8, 0x5Bu8, 0x32u8, 0x30u8, 0x31u8, 0x7Eu8];
    assert(r@ =~= paste_end());
    r
}

fn focus_in_bytes() -> (r: Vec<u8>)
    ensures
        r@ == focus_in(),
{
    let r = vec![0x1Bu8, 0x5Bu8, 0x49u8];
    assert(r@ =~= focus_in());
    r
}

fn focus_out_bytes() -> (r: Vec<u8>)
    ensures
        r@ == focus_out(),
{
    let r = vec![0x1Bu8, 0x5Bu8, 0x4Fu8];
    assert(r@ =~= focus_out());
    r
}

/// The first index of `body` at which the end of a paste starts, if any.
fn find_end(body: &[u8]) -> (r: Option<usize>)
    ensures
        match r {
            Some(i) => first_end(body@) == Some(i as int) && i + 6 <= body@.len(),
            None => first_end(body@) is None,
        },
{
    let end = paste_end_bytes();
    let mut count: usize = 0;
    while count < body.len()
        invariant
            end@ == paste_end(),
            count <= body@.len(),
            forall|j: int| 0 <= j < count ==> !ends_at(body@, j),
        decreases body@.len() - count,
    {
        let current = vstd::slice::slice_subrange(body, count, body.len());
        assert(current@ =~= body@.skip(count as int));
        if begins_with(current, end.as_slice()) {
            proof {
                let i = count as int;
                assert(ends_at(body@, i));
                let c = choose|c: int| ends_at(body@, c) && forall|j: int| 0 <= j < c ==> !ends_at(body@, j);
                assert(ends_at(body@, c) && forall|j: int| 0 <= j < c ==> !ends_at(body@, j));
                assert(c == i);
            }
            return Some(count);
        }
        count = count + 1;
    }
    assert forall|i: int| !ends_at(body@, i) by {
        if ends_at(body@, i) && i == body@.len() {
            assert(body@.skip(i).len() == 0);
        }
    }
    None
}

/// The bytes `text` followed by `more`.
fn joined(text: Vec<u8>, more: &[u8]) -> (r: Vec<u8>)
    ensures
        r@ == text@ + more@,
{
    let ghost first = text@;
    let mut text = text;
    let mut i: usize = 0;
    while i < more.len()
        invariant
            i <= more@.len(),
            text@ == first + more@.take(i as int),
        decreases more@.len() - i,
    {
        assert(more@.take(i + 1) =~= more@.take(i as int).push(more@[i as int]));
        text.push(more[i]);
        i = i + 1;
    }
    assert(more@.take(i as int) =~= more@);
    text
}

/// Outside a paste and a focus report, the events of the input are the key
/// that `Keys::find` decodes at its start, where there is one, and then the
/// events of the rest: a key press yields exactly one event for it, and
/// bytes that decode to no key yield none.
pub proof fn lemma_key_events(table: Map<Seq<u8>, Key>, input: Seq<u8>)
    requires
        input.len() > 0,
        !begins(input, paste_start()),
        !begins(input, focus_in()),
        !begins(input, focus_out()),
    ensures
        decode(table, input) matches Some((n, Some(k))) ==> (0 < n <= input.len() ==> decode_input(table, None, input)
            == match decode_input(table, None, input.skip(n)) {
            Some((events, open)) => Some((seq![EventView::Key(k)] + events, open)),
            None => None,
        }),
        decode(table, input) matches Some((n, None)) ==> (0 < n <= input.len() ==> decode_input(table, None, input)
            == decode_input(table, None, input.skip(n))),
{
    reveal(decode_input);
    match decode_input(table, None, input.skip(decode(table, input).unwrap().0)) {
        Some((events, open)) => {
            assert(Seq::<EventView>::empty() + events =~= events);
        },
        None => {},
    }
}

/// Pasted text comes back as one paste: the text between the start and the
/// end of a paste, where the end does not occur earlier, decodes to a single
/// paste of exactly that text, and no paste is left open.
#[verifier::rlimit(40)]
#[verifier::spinoff_prover]
pub proof fn lemma_paste_round_trip(table: Map<Seq<u8>, Key>, text: Seq<u8>)
    requires
        forall|i: int| 0 <= i < text.len() ==> !ends_at(text + paste_end(), i),
    ensures
        decode_input(table, None, paste_start() + text + paste_end()) == Some((seq![EventView::Paste(text)], None::<Seq<u8>>)),
{
    reveal(decode_input);
    let input = paste_start() + text + paste_end();
    assert(input.take(6) =~= paste_start());
    assert(input.skip(6) =~= text + paste_end());
    lemma_first_end(text);
    let body = text + paste_end();
    assert(body.take(text.len() as int) =~= text);
    assert(body.skip(text.len() as int + 6).len() == 0);
    lemma_no_input(table, None, body.skip(text.len() as int + 6));
    assert(seq![EventView::Paste(Seq::<u8>::empty() + text)] + Seq::<EventView>::empty() =~= seq![EventView::Paste(text)]);
}

/// A paste may end in a later chunk: a start of paste alone leaves an empty
/// paste open, and text followed by the end of a paste closes an open paste,
/// yielding all of its text.
#[verifier::rlimit(40)]
#[verifier::spinoff_prover]
pub proof fn lemma_paste_across_chunks(table: Map<Seq<u8>, Key>, open: Seq<u8>, text: Seq<u8>)
    requires
        forall|i: int| 0 <= i < text.len() ==> !ends_at(text + paste_end(), i),
    ensures
        decode_input(table, None, paste_start()) == Some((Seq::<EventView>::empty(), Some(Seq::<u8>::empty()))),
        decode_input(table, Some(open), text + paste_end()) == Some((seq![EventView::Paste(open + text)], None::<Seq<u8>>)),
{
    reveal(decode_input);
    assert(paste_start().take(6) =~= paste_start());
    assert(paste_start().skip(6).len() == 0);
    assert(first_end(paste_start().skip(6)) is None) by {
        assert forall|i: int| !ends_at(paste_start().skip(6), i) by {}
    }
    lemma_first_end(text);
    let body = text + paste_end();
    assert(body.take(text.len() as int) =~= text);
    assert(body.skip(text.len() as int + 6).len() == 0);
    lemma_no_input(table, None, body.skip(text.len() as int + 6));
    assert(seq![EventView::Paste(open + text)] + Seq::<EventView>::empty() =~= seq![EventView::Paste(open + text)]);
}

/// The end of a paste after text that does not hold it is found right
/// after the text.
proof fn lemma_first_end(text: Seq<u8>)
    requires
        forall|i: int| 0 <= i < text.len() ==> !ends_at(text + paste_end(), i),
    ensures
        first_end(text + paste_end()) == Some(text.len() as int),
{
    let body = text + paste_end();
    let n = text.len() as int;
    assert(body.skip(n) =~= paste_end());
    assert(body.skip(n).take(6) =~= paste_end());
    assert(ends_at(body, n));
    let c = choose|c: int| ends_at(body, c) && forall|j: int| 0 <= j < c ==> !ends_at(body, j);
    assert(ends_at(body, n) && forall|j: int| 0 <= j < n ==> !ends_at(body, j));
    assert(c == n);
}

/// A focus report decodes to the focus change it reports.
pub proof fn lemma_focus_events(table: Map<Seq<u8>, Key>)
    ensures
        decode_input(table, None, focus_in()) == Some((seq![EventView::Focus(true)], None::<Seq<u8>>)),
        decode_input(table, None, focus_out()) == Some((seq![EventView::Focus(false)], None::<Seq<u8>>)),
{
    reveal(decode_input);
    assert(focus_in().take(3) =~= focus_in());
    assert(focus_out().take(3) =~= focus_out());
    assert(!(focus_out().take(3) =~= focus_in()) ==> !begins(focus_out(), focus_in()));
    assert(focus_out()[2] != focus_in()[2]);
    lemma_no_input(table, None, focus_in().skip(3));
    lemma_no_input(table, None, focus_out().skip(3));
    assert(seq![EventView::Focus(true)] + Seq::<EventView>::empty() =~= seq![EventView::Focus(true)]);
    assert(seq![EventView::Focus(false)] + Seq::<EventView>::empty() =~= seq![EventView::Focus(false)]);
}

/// Decodes the bytes a terminal sends into events, keeping the text of a
/// paste whose end has not come yet.
pub struct Decoder {
    paste: Option<Vec<u8>>,
}

impl Decoder {
    /// The text of the paste whose end has not come yet, if any.
    pub closed spec fn pending(&self) -> Option<Seq<u8>> {
        match self.paste {
            Some(v) => Some(v@),
            None => None,
        }
    }

    /// A decoder outside any paste.
    pub fn new() -> (r: Decoder)
        ensures
            r.pending() is None,
    {
        Decoder { paste: None }
    }

    /// Decodes `input` into events against the key table `keys`: bracketed
    /// pastes, focus changes, then keys.
    pub fn feed(&mut self, keys: &Keys, input: &[u8]) -> (r: Vec<Event>)
        requires
            keys.wf(),
            decode_input(keys@, old(self).pending(), input@) is Some,
        ensures
            decode_input(keys@, old(self).pending(), input@) == Some((event_views(r@), final(self).pending())),
    {
        let ghost table = keys@;
        let ghost whole = decode_input(table, self.pending(), input@);
        let mut events: Vec<Event> = Vec::new();
        let mut input = input;
        proof {
            assert(event_views(events@) =~= Seq::<EventView>::empty());
            lemma_prefixed_empty(whole);
        }
        while input.len() > 0
            invariant
                keys.wf(),
                table == keys@,
                decode_input(table, self.pending(), input@) is Some,
                whole == prefixed(event_views(events@), decode_input(table, self.pending(), input@)),
            decreases input@.len(),
        {
            input = self.step(keys, input, &mut events);
        }
        proof {
            lemma_no_input(table, self.pending(), input@);
            assert(event_views(events@) + Seq::<EventView>::empty() =~= event_views(events@));
        }
        events
    }

    /// Whether `feed` can decode `input`: false where decoding would not
    /// end (a paste that begins or goes on with no end of it following, or a
    /// key bound to the empty sequence) or would index past the input (the
    /// first bytes of a character whose encoding is cut off).
    pub fn decodes(&self, keys: &Keys, input: &[u8]) -> (r: bool)
        requires
            keys.wf(),
        ensures
            r == (decode_input(keys@, self.pending(), input@) is Some),
    {
        let ghost table = keys@;
        let ghost goal = decode_input(table, self.pending(), input@) is Some;
        let ghost mut pending = self.pending();
        let mut open = self.paste.is_some();
        let mut rest_in = input;
        let start = paste_start_bytes();
        let fin = focus_in_bytes();
        let fout = focus_out_bytes();
        while rest_in.len() > 0
            invariant
                keys.wf(),
                table == keys@,
                open == (pending is Some),
                start@ == paste_start(),
                fin@ == focus_in(),
                fout@ == focus_out(),
                goal == (decode_input(table, pending, rest_in@) is Some),
                goal == (decode_input(table, self.pending(), input@) is Some),
            decreases rest_in@.len(),
        {
            if open || begins_with(rest_in, start.as_slice()) {
                let body = if open {
                    rest_in
                } else {
                    vstd::slice::slice_subrange(rest_in, 6, rest_in.len())
                };
                assert(body@ =~= (if pending is Some { rest_in@ } else { rest_in@.skip(6) }));
                match find_end(body) {
                    Some(i) => {
                        let rest = vstd::slice::slice_subrange(body, i + 6, body.len());
                        assert(rest@ =~= body@.skip(i + 6));
                        proof {
                            lemma_paste_found(table, pending, rest_in@, i as int);
                            pending = None;
                        }
                        open = false;
                        rest_in = rest;
                    },
                    None => {
                        proof {
                            lemma_paste_open(table, pending, rest_in@);
                        }
                        return body.len() == 0;
                    },
                }
            } else if begins_with(rest_in, fin.as_slice()) || begins_with(rest_in, fout.as_slice()) {
                let gained = begins_with(rest_in, fin.as_slice());
                proof {
                    lemma_focus(table, rest_in@, gained);
                }
                rest_in = vstd::slice::slice_subrange(rest_in, 3, rest_in.len());
            } else {
                if !keys.decodes(rest_in) {
                    proof {
                        lemma_key_fails(table, rest_in@);
                    }
                    return false;
                }
                proof {
                    lemma_decode_within(table, rest_in@);
                }
                let (rest, _key) = keys.find(rest_in);
                if rest.len() >= rest_in.len() {
                    proof {
                        lemma_key_fails(table, rest_in@);
                    }
                    return false;
                }
                proof {
                    lemma_key(table, rest_in@);
                }
                rest_in = rest;
            }
        }
        proof {
            lemma_no_input(table, pending, rest_in@);
        }
        true
    }

    /// Decodes the event that `input` starts with, appending it to `events`.
    fn step<'a>(&mut self, keys: &Keys, input: &'a [u8], events: &mut Vec<Event>) -> (r: &'a [u8])
        requires
            keys.wf(),
            input@.len() > 0,
            decode_input(keys@, old(self).pending(), input@) is Some,
        ensures
            r@.len() < input@.len(),
            decode_input(keys@, final(self).pending(), r@) is Some,
            prefixed(event_views(old(events)@), decode_input(keys@, old(self).pending(), input@))
                == prefixed(event_views(final(events)@), decode_input(keys@, final(self).pending(), r@)),
    {
        let start = paste_start_bytes();
        let fin = focus_in_bytes();
        let fout = focus_out_bytes();
        if self.paste.is_some() || begins_with(input, start.as_slice()) {
            self.paste_step(keys, input, events)
        } else if begins_with(input, fin.as_slice()) {
            Self::focus_step(keys, input, events, true)
        } else if begins_with(input, fout.as_slice()) {
            Self::focus_step(keys, input, events, false)
        } else {
            Self::key_step(keys, input, events)
        }
    }

    /// Decodes a paste that `input` starts with, or continues.
    #[verifier::rlimit(60)]
    fn paste_step<'a>(&mut self, keys: &Keys, input: &'a [u8], events: &mut Vec<Event>) -> (r: &'a [u8])
        requires
            keys.wf(),
            input@.len() > 0,
            old(self).pending() is Some || begins(input@, paste_start()),
            decode_input(keys@, old(self).pending(), input@) is Some,
        ensures
            r@.len() < input@.len(),
            decode_input(keys@, final(self).pending(), r@) is Some,
            prefixed(event_views(old(events)@), decode_input(keys@, old(self).pending(), input@))
                == prefixed(event_views(final(events)@), decode_input(keys@, final(self).pending(), r@)),
    {
        let ghost table = keys@;
        let ghost pending = self.pending();
        let ghost e0 = event_views(events@);
        let body = if self.paste.is_some() {
            input
        } else {
            vstd::slice::slice_subrange(input, 6, input.len())
        };
        assert(body@ =~= (if pending is Some { input@ } else { input@.skip(6) }));
        let text = match self.paste.take() {
            Some(v) => v,
            None => Vec::new(),
        };
        assert(text@ =~= (if pending is Some { pending.unwrap() } else { Seq::empty() }));
        let found = find_end(body);
        match found {
            Some(i) => {
                let blen = body.len();
                assert(i + 6 <= blen);
                let head = vstd::slice::slice_subrange(body, 0, i);
                assert(head@ =~= body@.take(i as int));
                let pasted = joined(text, head);
                events.push(Event::Paste(pasted));
                let rest = vstd::slice::slice_subrange(body, i + 6, blen);
                assert(rest@ =~= body@.skip(i + 6));
                assert(event_views(events@) =~= e0 + seq![EventView::Paste(pasted@)]);
                proof {
                    lemma_paste_found(table, pending, input@, i as int);
                    lemma_prefixed(e0, seq![EventView::Paste(pasted@)], decode_input(table, None, rest@));
                }
                rest
            },
            None => {
                self.paste = Some(text);
                proof {
                    lemma_paste_open(table, pending, input@);
                }
                assert(body@.len() == 0);
                proof {
                    lemma_no_input(table, self.pending(), body@);
                }
                assert(event_views(events@) =~= e0);
                proof {
                    lemma_prefixed(e0, Seq::empty(), Some((Seq::empty(), self.pending())));
                    assert(Seq::<EventView>::empty() + Seq::<EventView>::empty() =~= Seq::<EventView>::empty());
                    assert(e0 + Seq::<EventView>::empty() =~= e0);
                }
                body
            },
        }
    }

    /// Decodes a focus change.
    fn focus_step<'a>(
        keys: &Keys,
        input: &'a [u8],
        events: &mut Vec<Event>,
        gained: bool,
    ) -> (r: &'a [u8])
        requires
            begins(input@, if gained { focus_in() } else { focus_out() }),
            !begins(input@, paste_start()),
            gained || !begins(input@, focus_in()),
            decode_input(keys@, None::<Seq<u8>>, input@) is Some,
        ensures
            r@.len() < input@.len(),
            decode_input(keys@, None::<Seq<u8>>, r@) is Some,
            prefixed(event_views(old(events)@), decode_input(keys@, None::<Seq<u8>>, input@))
                == prefixed(event_views(final(events)@), decode_input(keys@, None::<Seq<u8>>, r@)),
    {
        let ghost e0 = event_views(events@);
        events.push(Event::Focus(gained));
        let rest = vstd::slice::slice_subrange(input, 3, input.len());
        assert(rest@ =~= input@.skip(3));
        assert(event_views(events@) =~= e0 + seq![EventView::Focus(gained)]);
        proof {
            lemma_focus(keys@, input@, gained);
            lemma_prefixed(e0, seq![EventView::Focus(gained)], decode_input(keys@, None::<Seq<u8>>, rest@));
        }
        rest
    }

    /// Decodes a key.
    fn key_step<'a>(
        keys: &Keys,
        input: &'a [u8],
        events: &mut Vec<Event>,
    ) -> (r: &'a [u8])
        requires
            keys.wf(),
            input@.len() > 0,
            !begins(input@, paste_start()),
            !begins(input@, focus_in()),
            !begins(input@, focus_out()),
            decode_input(keys@, None::<Seq<u8>>, input@) is Some,
        ensures
            r@.len() < input@.len(),
            decode_input(keys@, None::<Seq<u8>>, r@) is Some,
            prefixed(event_views(old(events)@), decode_input(keys@, None::<Seq<u8>>, input@))
                == prefixed(event_views(final(events)@), decode_input(keys@, None::<Seq<u8>>, r@)),
    {
        let ghost table = keys@;
        let ghost e0 = event_views(events@);
        proof {
            lemma_key_progress(table, input@);
            lemma_key(table, input@);
        }
        let (rest, key) = keys.find(input);
        match key {
            Some(k) => {
                events.push(Event::Key(k));
                assert(event_views(events@) =~= e0 + seq![EventView::Key(k)]);
            },
            None => {
                assert(event_views(events@) =~= e0 + Seq::<EventView>::empty());
            },
        }
        proof {
            lemma_prefixed(e0, key_events(key), decode_input(table, None::<Seq<u8>>, rest@));
        }
        rest
    }
}

/// How a paste decodes whose end is found at index `i` of its body.
proof fn lemma_paste_found(table: Map<Seq<u8>, Key>, pending: Option<Seq<u8>>, input: Seq<u8>, i: int)
    requires
        input.len() > 0,
        pending is Some || begins(input, paste_start()),
        first_end(if pending is Some { input } else { input.skip(6) }) == Some(i),
        0 <= i,
        i + 6 <= (if pending is Some { input } else { input.skip(6) }).len(),
    ensures
        ({
            let body = if pending is Some { input } else { input.skip(6) };
            let text = if pending is Some { pending.unwrap() } else { Seq::empty() };
            decode_input(table, pending, input) == prefixed(
                seq![EventView::Paste(text + body.take(i))],
                decode_input(table, None, body.skip(i + 6)),
            )
        }),
{
    reveal(decode_input);
}

/// How a paste decodes whose end is not found in its body.
proof fn lemma_paste_open(table: Map<Seq<u8>, Key>, pending: Option<Seq<u8>>, input: Seq<u8>)
    requires
        input.len() > 0,
        pending is Some || begins(input, paste_start()),
        first_end(if pending is Some { input } else { input.skip(6) }) is None,
    ensures
        ({
            let body = if pending is Some { input } else { input.skip(6) };
            let text = if pending is Some { pending.unwrap() } else { Seq::empty() };
            decode_input(table, pending, input) == if body.len() == 0 {
                Some((Seq::<EventView>::empty(), Some(text)))
            } else {
                None
            }
        }),
{
    reveal(decode_input);
}

/// How input that starts with a focus change decodes.
proof fn lemma_focus(table: Map<Seq<u8>, Key>, input: Seq<u8>, gained: bool)
    requires
        begins(input, if gained { focus_in() } else { focus_out() }),
        !begins(input, paste_start()),
        gained || !begins(input, focus_in()),
    ensures
        decode_input(table, None, input) == prefixed(seq![EventView::Focus(gained)], decode_input(table, None, input.skip(3))),
{
    reveal(decode_input);
}

/// How input that starts with a key decodes.
proof fn lemma_key(table: Map<Seq<u8>, Key>, input: Seq<u8>)
    requires
        input.len() > 0,
        !begins(input, paste_start()),
        !begins(input, focus_in()),
        !begins(input, focus_out()),
        decode(table, input) is Some,
        0 < decode(table, input).unwrap().0 <= input.len(),
    ensures
        decode_input(table, None, input) == prefixed(
            key_events(decode(table, input).unwrap().1),
            decode_input(table, None, input.skip(decode(table, input).unwrap().0)),
        ),
{
    reveal(decode_input);
}

/// Input that starts with a key that cannot be decoded, or that decodes
/// from no byte, does not decode.
proof fn lemma_key_fails(table: Map<Seq<u8>, Key>, input: Seq<u8>)
    requires
        input.len() > 0,
        !begins(input, paste_start()),
        !begins(input, focus_in()),
        !begins(input, focus_out()),
    ensures
        !(decode(table, input) matches Some((n, _)) && 0 < n <= input.len()) ==> decode_input(table, None, input) is None,
{
    reveal(decode_input);
}

/// Empty input decodes to no events.
proof fn lemma_no_input(table: Map<Seq<u8>, Key>, pending: Option<Seq<u8>>, input: Seq<u8>)
    requires
        input.len() == 0,
    ensures
        decode_input(table, pending, input) == Some((Seq::<EventView>::empty(), pending)),
{
    reveal(decode_input);
}

/// Input that decodes at all starts with a key that consumes some byte.
proof fn lemma_key_progress(table: Map<Seq<u8>, Key>, input: Seq<u8>)
    requires
        input.len() > 0,
        !begins(input, paste_start()),
        !begins(input, focus_in()),
        !begins(input, focus_out()),
        decode_input(table, None, input) is Some,
    ensures
        decode(table, input) is Some,
        0 < decode(table, input).unwrap().0 <= input.len(),
{
    reveal(decode_input);
}

/// Events before events before a decoding are the joined events before it.
proof fn lemma_prefixed(
    e0: Seq<EventView>,
    x: Seq<EventView>,
    rest: Option<(Seq<EventView>, Option<Seq<u8>>)>,
)
    ensures
        prefixed(e0, prefixed(x, rest)) == prefixed(e0 + x, rest),
{
    match rest {
        Some((e, p)) => {
            assert(e0 + (x + e) =~= e0 + x + e);
        },
        None => {},
    }
}

/// No events before a decoding leave it as it is.
proof fn lemma_prefixed_empty(rest: Option<(Seq<EventView>, Option<Seq<u8>>)>)
    ensures
        prefixed(Seq::empty(), rest) == rest,
{
    match rest {
        Some((e, p)) => {
            assert(Seq::<EventView>::empty() + e =~= e);
        },
        None => {},
    }
}

/// The bytes that turn the terminal features this library relies on on
/// (`on`) or off: application cursor keys, the application keypad, and
/// bracketed paste, focus reports and mouse reports (private modes 2004,
/// 1004 and 1006).
pub open spec fn setup_bytes(on: bool) -> Seq<u8> {
    control_bytes(if on { ControlCode::DecSet(DecMode::ApplicationCursor) } else { ControlCode::DecReset(DecMode::ApplicationCursor) })
        + control_bytes(ControlCode::ApplicationKeypad(on))
        + csi_private(if on { 0x68u8 } else { 0x6Cu8 }, seq![2004u32, 1004u32, 1006u32])
}

/// The set-up sequences, written out: `ESC [ ? 1 h`, `ESC =` and
/// `ESC [ ? 2004 ; 1004 ; 1006 h` turn the features on, the same with `l`
/// and `ESC >` turn them off.
pub proof fn lemma_setup_bytes()
    ensures
        setup_bytes(true) == seq![0x1Bu8, 0x5Bu8, 0x3Fu8, 0x31u8, 0x68u8, 0x1Bu8, 0x3Du8, 0x1Bu8, 0x5Bu8, 0x3Fu8,
            0x32u8, 0x30u8, 0x30u8, 0x34u8, 0x3Bu8, 0x31u8, 0x30u8, 0x30u8, 0x34u8, 0x3Bu8, 0x31u8, 0x30u8, 0x30u8, 0x36u8, 0x68u8],
        setup_bytes(false) == seq![0x1Bu8, 0x5Bu8, 0x3Fu8, 0x31u8, 0x6Cu8, 0x1Bu8, 0x3Eu8, 0x1Bu8, 0x5Bu8, 0x3Fu8,
            0x32u8, 0x30u8, 0x30u8, 0x34u8, 0x3Bu8, 0x31u8, 0x30u8, 0x30u8, 0x34u8, 0x3Bu8, 0x31u8, 0x30u8, 0x30u8, 0x36u8, 0x6Cu8],
{
    reveal_with_fuel(crate::info::decimal, 5);
    reveal_with_fuel(crate::control::joined_decimals, 4);
    let args = seq![2004u32, 1004u32, 1006u32];
    assert(args.drop_last() =~= seq![2004u32, 1004u32]);
    assert(args.drop_last().drop_last() =~= seq![2004u32]);
    assert(crate::info::decimal(1) =~= seq![0x31u8]);
    assert(crate::info::decimal(2004) =~= seq![0x32u8, 0x30u8, 0x30u8, 0x34u8]);
    assert(crate::info::decimal(1004) =~= seq![0x31u8, 0x30u8, 0x30u8, 0x34u8]);
    assert(crate::info::decimal(1006) =~= seq![0x31u8, 0x30u8, 0x30u8, 0x36u8]);
    assert(setup_bytes(true) =~= seq![0x1Bu8, 0x5Bu8, 0x3Fu8, 0x31u8, 0x68u8, 0x1Bu8, 0x3Du8, 0x1Bu8, 0x5Bu8, 0x3Fu8,
        0x32u8, 0x30u8, 0x30u8, 0x34u8, 0x3Bu8, 0x31u8, 0x30u8, 0x30u8, 0x34u8, 0x3Bu8, 0x31u8, 0x30u8, 0x30u8, 0x36u8, 0x68u8]);
    assert(setup_bytes(false) =~= seq![0x1Bu8, 0x5Bu8, 0x3Fu8, 0x31u8, 0x6Cu8, 0x1Bu8, 0x3Eu8, 0x1Bu8, 0x5Bu8, 0x3Fu8,
        0x32u8, 0x30u8, 0x30u8, 0x34u8, 0x3Bu8, 0x31u8, 0x30u8, 0x30u8, 0x34u8, 0x3Bu8, 0x31u8, 0x30u8, 0x30u8, 0x36u8, 0x6Cu8]);
}

/// The bytes that turn the terminal features this library relies on on or off.
fn setup(on: bool) -> (r: Vec<u8>)
    ensures
        r@ == setup_bytes(on),
{
    let mode = if on {
        ControlCode::DecSet(DecMode::ApplicationCursor)
    } else {
        ControlCode::DecReset(DecMode::ApplicationCursor)
    };
    let mut out = format_control(&mode);
    let mut keypad = format_control(&ControlCode::ApplicationKeypad(on));
    out.append(&mut keypad);
    let args: Vec<u32> = vec![2004u32, 1004u32, 1006u32];
    let ghost args_view = args@;
    assert(args_view =~= seq![2004u32, 1004u32, 1006u32]);
    let id: u8 = if on { 0x68 } else { 0x6C };
    let mut modes = format_control(&ControlCode::Private(id, args));
    out.append(&mut modes);
    out
}

/// The bytes that set a terminal up for this library.
pub fn init() -> (r: Vec<u8>)
    ensures
        r@ == setup_bytes(true),
{
    setup(true)
}

/// The bytes that undo what `init` set up.
pub fn deinit() -> (r: Vec<u8>)
    ensures
        r@ == setup_bytes(false),
{
    setup(false)
}

} // verus!
