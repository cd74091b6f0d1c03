//! The paginated queue browser: a bounded, single-consumer state machine
//! over one immutable queue snapshot.
//!
//! The snapshot is front-ordered like the live queue: element 0 is the
//! "now playing" slot and everything behind it is pending. Pages window
//! the pending tracks only. The surrounding task runs the interactive
//! loop: it renders, waits for the next navigation input with a fixed
//! inactivity window, and feeds recognized inputs to [`Browser::navigate`];
//! when the window elapses it calls [`Browser::expire`], after which the
//! browser is disabled for good and every navigation control renders
//! disabled.

use vstd::prelude::*;
use vstd::string::*;

verus! {

use crate::messages::EMBED_COLOR;
use crate::messages::Embed;
use crate::messages::EmbedField;
use crate::text::format_duration;
use crate::text::spec_dec;
use crate::text::spec_duration;
use crate::text::u64_to_string;
use crate::track::Track;

/// How many pending tracks one page shows.
pub const PAGE_SIZE: usize = 5;

/// Seconds of inactivity after which a browser's wait gives up and the
/// browser is disabled.
pub const INACTIVITY_WINDOW_SECS: u64 = 60;

/// `ceil(pending / PAGE_SIZE)`: how many pages a browser over `pending`
/// pending tracks can show. Zero pending tracks mean zero navigable pages.
pub open spec fn spec_total_pages(pending: nat) -> nat {
    ((pending as int + PAGE_SIZE as int - 1) / (PAGE_SIZE as int)) as nat
}

/// A page cursor is in bounds when it addresses an existing page, or
/// rests at 0 for a browser with no navigable pages.
pub open spec fn page_in_bounds(page: nat, total: nat) -> bool {
    if total == 0 {
        page == 0
    } else {
        page < total
    }
}

/// Clamps a requested page into `[0, total - 1]` (0 when there are no
/// pages at all).
pub open spec fn spec_clamp_page(page: nat, total: nat) -> nat {
    if total == 0 {
        0
    } else if page < total {
        page
    } else {
        (total - 1) as nat
    }
}

/// One recognized navigation input, by the button it came from.
#[derive(Clone, Copy, Debug, PartialEq, Eq, Structural)]
pub enum NavInput {
    First,
    Previous,
    Next,
    Last,
}

/// The page that one navigation input moves a well-placed cursor to:
/// `first` rewinds to 0, `previous` and `next` move one page without
/// leaving `[0, total - 1]`, `last` jumps to the final page.
pub open spec fn spec_nav(page: nat, total: nat, input: NavInput) -> nat {
    match input {
        NavInput::First => 0,
        NavInput::Previous => if page == 0 {
            0
        } else {
            spec_clamp_page((page - 1) as nat, total)
        },
        NavInput::Next => spec_clamp_page(page + 1, total),
        NavInput::Last => if total == 0 {
            0
        } else {
            (total - 1) as nat
        },
    }
}

/// Where a cursor ends up after a whole sequence of navigation inputs.
pub open spec fn spec_run_nav(page: nat, total: nat, inputs: Seq<NavInput>) -> nat
    decreases inputs.len(),
{
    if inputs.len() == 0 {
        page
    } else {
        spec_run_nav(spec_nav(page, total, inputs[0]), total, inputs.skip(1))
    }
}

/// One navigation step keeps the cursor in bounds.
pub proof fn lemma_nav_step_in_bounds(page: nat, total: nat, input: NavInput)
    requires
        page_in_bounds(page, total),
    ensures
        page_in_bounds(spec_nav(page, total, input), total),
{
}

/// No sequence of navigation inputs, however long and in whatever order,
/// can drive an in-bounds cursor outside `[0, total - 1]`.
pub proof fn lemma_nav_stays_in_bounds(page: nat, total: nat, inputs: Seq<NavInput>)
    requires
        page_in_bounds(page, total),
    ensures
        page_in_bounds(spec_run_nav(page, total, inputs), total),
    decreases inputs.len(),
{
    if inputs.len() > 0 {
        lemma_nav_step_in_bounds(page, total, inputs[0]);
        lemma_nav_stays_in_bounds(spec_nav(page, total, inputs[0]), total, inputs.skip(1));
    }
}

/// A snapshot with nothing pending has no navigable pages.
pub proof fn lemma_no_pending_no_pages()
    ensures
        spec_total_pages(0) == 0,
{
}

/// The disabled flag of each navigation control: `first` and `previous`
/// rest while the cursor is on page 0, `next` and `last` rest while it is
/// on the final page (or there are no pages); a disabled browser rests
/// all four.
#[derive(Clone, Copy, Debug, PartialEq, Eq, Structural)]
pub struct NavControls {
    pub first_disabled: bool,
    pub previous_disabled: bool,
    pub next_disabled: bool,
    pub last_disabled: bool,
}

/// The control set rendered for a cursor at `page` of `total` pages.
pub open spec fn spec_controls(page: nat, total: nat, disabled: bool) -> NavControls {
    NavControls {
        first_disabled: disabled || page == 0,
        previous_disabled: disabled || page == 0,
        next_disabled: disabled || page + 1 >= total,
        last_disabled: disabled || page + 1 >= total,
    }
}

/// Once a browser is disabled, all four navigation controls render
/// disabled, whatever page it stopped on.
pub proof fn lemma_disabled_controls(page: nat, total: nat)
    ensures
        spec_controls(page, total, true).first_disabled,
        spec_controls(page, total, true).previous_disabled,
        spec_controls(page, total, true).next_disabled,
        spec_controls(page, total, true).last_disabled,
{
}

/// Maps a button identifier to its navigation input; anything else is
/// unrecognized and, per the browser loop, logged and ignored without
/// resetting the inactivity window.
pub open spec fn spec_parse_nav(id: Seq<char>) -> Option<NavInput> {
    if id == "first"@ {
        Some(NavInput::First)
    } else if id == "previous"@ {
        Some(NavInput::Previous)
    } else if id == "next"@ {
        Some(NavInput::Next)
    } else if id == "last"@ {
        Some(NavInput::Last)
    } else {
        None
    }
}

/// Recognizes the four navigation button identifiers.
pub fn parse_nav(id: &String) -> (r: Option<NavInput>)
    ensures
        r == spec_parse_nav(id@),
{
    if id.eq(&String::from_str("first")) {
        Some(NavInput::First)
    } else if id.eq(&String::from_str("previous")) {
        Some(NavInput::Previous)
    } else if id.eq(&String::from_str("next")) {
        Some(NavInput::Next)
    } else if id.eq(&String::from_str("last")) {
        Some(NavInput::Last)
    } else {
        None
    }
}

/// How many pages `pending` pending tracks make.
pub fn total_pages(pending: usize) -> (r: usize)
    ensures
        r == spec_total_pages(pending as nat),
{
    let r = pending / PAGE_SIZE + (if pending % PAGE_SIZE == 0 {
        0
    } else {
        1
    });
    proof {
        assert(r == spec_total_pages(pending as nat)) by {
            vstd::arithmetic::div_mod::lemma_fundamental_div_mod(pending as int, PAGE_SIZE as int);
            vstd::arithmetic::div_mod::lemma_fundamental_div_mod(
                pending as int + (PAGE_SIZE - 1),
                PAGE_SIZE as int,
            );
        };
    }
    r
}

/// The title half of a track's queue line: the title linked to its
/// source URL when both are known, the bare title without a URL, and a
/// stand-in when the title is unknown.
pub open spec fn spec_title_part(t: Track) -> Seq<char> {
    match (t.title, t.source_url) {
        (Some(ti), Some(u)) => "["@ + ti@ + "]("@ + u@ + ")"@,
        (Some(ti), None) => ti@,
        (None, _) => "Unknown"@,
    }
}

/// The duration half of a track's queue line: the `M:SS` form in
/// backticks, or nothing when the duration is unknown.
pub open spec fn spec_duration_part(t: Track) -> Seq<char> {
    match t.duration_secs {
        Some(s) => " `"@ + spec_duration(s as nat) + "`"@,
        None => Seq::<char>::empty(),
    }
}

/// The track summary line the queue embed shows for one track.
pub open spec fn spec_track_line(t: Track) -> Seq<char> {
    spec_title_part(t) + spec_duration_part(t)
}

/// One pending track's numbered line. `i` is the track's queue position,
/// which is also the 1-based pending index that removal takes.
pub open spec fn spec_numbered_line(i: nat, t: Track) -> Seq<char> {
    "*"@ + spec_dec(i) + ".* "@ + spec_track_line(t)
}

/// The body of one page: the numbered lines of the pending tracks at
/// queue positions `[start, end)`, joined with newlines.
pub open spec fn spec_page_lines(s: Seq<Track>, start: nat, end: nat) -> Seq<char>
    decreases end - start,
{
    if end <= start {
        Seq::<char>::empty()
    } else if end == start + 1 {
        spec_numbered_line(start, s[start as int])
    } else {
        spec_numbered_line(start, s[start as int]) + "\n"@ + spec_page_lines(s, start + 1, end)
    }
}

fn track_line(t: &Track) -> (r: String)
    ensures
        r@ == spec_track_line(*t),
{
    let mut s = match (&t.title, &t.source_url) {
        (Some(ti), Some(u)) => {
            let mut s = String::from_str("[");
            s.append(ti.as_str());
            s.append("](");
            s.append(u.as_str());
            s.append(")");
            proof {
                assert(s@ =~= spec_title_part(*t));
            }
            s
        },
        (Some(ti), None) => ti.clone(),
        (None, _) => String::from_str("Unknown"),
    };
    match &t.duration_secs {
        Some(secs) => {
            s.append(" `");
            s.append(format_duration(*secs).as_str());
            s.append("`");
        },
        None => {},
    }
    proof {
        assert(s@ =~= spec_track_line(*t));
    }
    s
}

fn numbered_line(i: usize, t: &Track) -> (r: String)
    ensures
        r@ == spec_numbered_line(i as nat, *t),
{
    let mut s = String::from_str("*");
    s.append(u64_to_string(i as u64).as_str());
    s.append(".* ");
    s.append(track_line(t).as_str());
    proof {
        assert(s@ =~= spec_numbered_line(i as nat, *t));
    }
    s
}

fn page_lines(s: &Vec<Track>, start: usize, end: usize) -> (r: String)
    requires
        start <= end,
        end <= s@.len(),
    ensures
        r@ == spec_page_lines(s@, start as nat, end as nat),
    decreases end - start,
{
    if start >= end {
        String::new()
    } else if end == start + 1 {
        numbered_line(start, &s[start])
    } else {
        let mut r = numbered_line(start, &s[start]);
        r.append("\n");
        r.append(page_lines(s, start + 1, end).as_str());
        proof {
            assert(r@ =~= spec_page_lines(s@, start as nat, end as nat));
        }
        r
    }
}

/// Everything one render of the browser shows: the embed, the control
/// set, and the page the cursor rests on.
pub struct QueueView {
    pub embed: Embed,
    pub controls: NavControls,
    pub page: usize,
}

/// The first queue position a page's window shows.
pub open spec fn spec_window_start(page: nat) -> nat {
    1 + page * (PAGE_SIZE as nat)
}

/// One past the last queue position the window shows: a full page where
/// the snapshot allows it, the snapshot's end otherwise.
pub open spec fn spec_window_end(len: nat, page: nat) -> nat {
    if spec_window_start(page) + (PAGE_SIZE as nat) <= len {
        spec_window_start(page) + (PAGE_SIZE as nat)
    } else {
        len
    }
}

/// The interactive queue-browser state machine. It owns its snapshot:
/// concurrent mutations of the live queue are deliberately not reflected
/// until the browser is re-invoked.
pub struct Browser {
    snapshot: Vec<Track>,
    page: usize,
    disabled: bool,
}

impl Browser {
    /// The immutable snapshot this browser windows, now-playing slot first.
    pub closed spec fn spec_snapshot(&self) -> Seq<Track> {
        self.snapshot@
    }

    /// How many tracks are pending behind the now-playing slot.
    pub open spec fn spec_pending(&self) -> nat {
        if self.spec_snapshot().len() == 0 {
            0
        } else {
            (self.spec_snapshot().len() - 1) as nat
        }
    }

    /// This browser's page count.
    pub open spec fn spec_total(&self) -> nat {
        spec_total_pages(self.spec_pending())
    }

    /// The current page cursor.
    pub closed spec fn spec_page(&self) -> nat {
        self.page as nat
    }

    /// Whether the inactivity window has ended this browser.
    pub closed spec fn spec_disabled(&self) -> bool {
        self.disabled
    }

    /// A browser always holds a non-empty snapshot (there is a now-playing
    /// slot) and an in-bounds page cursor.
    pub open spec fn wf(&self) -> bool {
        &&& self.spec_snapshot().len() >= 1
        &&& page_in_bounds(self.spec_page(), self.spec_total())
    }

    /// Opens a browser over `snapshot` at the requested page, clamped
    /// into the valid range.
    pub fn new(snapshot: Vec<Track>, requested_page: usize) -> (b: Browser)
        requires
            snapshot@.len() >= 1,
        ensures
            b.wf(),
            !b.spec_disabled(),
            b.spec_snapshot() == snapshot@,
            b.spec_page() == spec_clamp_page(
                requested_page as nat,
                spec_total_pages((snapshot@.len() - 1) as nat),
            ),
    {
        let pending = snapshot.len() - 1;
        let total = total_pages(pending);
        let page = if total == 0 {
            0
        } else if requested_page < total {
            requested_page
        } else {
            total - 1
        };
        Browser { snapshot, page, disabled: false }
    }

    pub fn page(&self) -> (p: usize)
        ensures
            p == self.spec_page(),
    {
        self.page
    }

    pub fn is_disabled(&self) -> (d: bool)
        ensures
            d == self.spec_disabled(),
    {
        self.disabled
    }

    /// The snapshot, for rendering.
    pub fn tracks(&self) -> (r: &Vec<Track>)
        ensures
            r@ == self.spec_snapshot(),
    {
        &self.snapshot
    }

    /// Applies one recognized navigation input. The cursor moves by the
    /// input's page delta and never leaves `[0, total - 1]`.
    pub fn navigate(&mut self, input: NavInput)
        requires
            old(self).wf(),
            !old(self).spec_disabled(),
        ensures
            final(self).wf(),
            !final(self).spec_disabled(),
            final(self).spec_snapshot() == old(self).spec_snapshot(),
            final(self).spec_page() == spec_nav(
                old(self).spec_page(),
                old(self).spec_total(),
                input,
            ),
    {
        let pending = self.snapshot.len() - 1;
        let total = total_pages(pending);
        self.page = match input {
            NavInput::First => 0,
            NavInput::Previous => if self.page == 0 {
                0
            } else {
                self.page - 1
            },
            NavInput::Next => if self.page + 1 < total {
                self.page + 1
            } else if total == 0 {
                0
            } else {
                total - 1
            },
            NavInput::Last => if total == 0 {
                0
            } else {
                total - 1
            },
        };
    }

    /// The inactivity window elapsed with no navigation input: the
    /// browser becomes disabled, terminally, on the page it was showing.
    pub fn expire(&mut self)
        requires
            old(self).wf(),
        ensures
            final(self).wf(),
            final(self).spec_disabled(),
            final(self).spec_snapshot() == old(self).spec_snapshot(),
            final(self).spec_page() == old(self).spec_page(),
    {
        self.disabled = true;
    }

    /// Renders this browser's current state: a "Queue" embed whose first
    /// field is the now-playing track's summary line, a page field with
    /// the window of numbered pending lines and a `page/total` footer
    /// when anything is pending, and the navigation control set.
    pub fn render(&self) -> (v: QueueView)
        requires
            self.wf(),
        ensures
            v.page == self.spec_page(),
            v.controls == spec_controls(self.spec_page(), self.spec_total(), self.spec_disabled()),
            v.embed.color == EMBED_COLOR,
            v.embed.title matches Some(s) && s@ == "Queue"@,
            v.embed.url is None,
            v.embed.author_name is None,
            v.embed.image_url is None,
            v.embed.fields@.len() == (if self.spec_pending() == 0 {
                1int
            } else {
                2int
            }),
            v.embed.fields@[0].name@ == "Now Playing"@,
            v.embed.fields@[0].value@ == spec_track_line(self.spec_snapshot()[0]),
            !v.embed.fields@[0].inline,
            self.spec_pending() == 0 ==> v.embed.footer is None,
            self.spec_pending() > 0 ==> {
                &&& v.embed.fields@[1].name@ == "Page "@ + spec_dec(self.spec_page() + 1)
                &&& v.embed.fields@[1].value@ == spec_page_lines(
                    self.spec_snapshot(),
                    spec_window_start(self.spec_page()),
                    spec_window_end(self.spec_snapshot().len(), self.spec_page()),
                )
                &&& !v.embed.fields@[1].inline
                &&& v.embed.footer matches Some(f) && f@ == spec_dec(self.spec_page() + 1) + "/"@
                    + spec_dec(self.spec_total())
            },
    {
        let len = self.snapshot.len();
        let pending = len - 1;
        let total = total_pages(pending);
        let mut fields: Vec<EmbedField> = Vec::new();
        fields.push(
            EmbedField {
                name: String::from_str("Now Playing"),
                value: track_line(&self.snapshot[0]),
                inline: false,
            },
        );
        let mut footer: Option<String> = None;
        if pending > 0 {
            proof {
                vstd::arithmetic::div_mod::lemma_fundamental_div_mod(
                    pending as int + 4,
                    PAGE_SIZE as int,
                );
                assert(PAGE_SIZE as int * (total as int) <= pending as int + 4);
                assert(self.page < total);
            }
            let start = 1 + self.page * PAGE_SIZE;
            let end = if len - start > PAGE_SIZE {
                start + PAGE_SIZE
            } else {
                len
            };
            let mut name = String::from_str("Page ");
            name.append(u64_to_string(self.page as u64 + 1).as_str());
            proof {
                assert(name@ =~= "Page "@ + spec_dec(self.spec_page() + 1));
            }
            let value = page_lines(&self.snapshot, start, end);
            fields.push(EmbedField { name, value, inline: false });
            let mut f = u64_to_string(self.page as u64 + 1);
            f.append("/");
            f.append(u64_to_string(total as u64).as_str());
            proof {
                assert(f@ =~= spec_dec(self.spec_page() + 1) + "/"@ + spec_dec(self.spec_total()));
            }
            footer = Some(f);
        }
        let controls = self.controls();
        QueueView {
            embed: Embed {
                color: EMBED_COLOR,
                title: Some(String::from_str("Queue")),
                url: None,
                author_name: None,
                image_url: None,
                footer,
                fields,
            },
            controls,
            page: self.page,
        }
    }

    /// The navigation controls this browser renders right now.
    pub fn controls(&self) -> (c: NavControls)
        requires
            self.wf(),
        ensures
            c == spec_controls(self.spec_page(), self.spec_total(), self.spec_disabled()),
    {
        let pending = self.snapshot.len() - 1;
        let total = total_pages(pending);
        let at_end = self.page + 1 >= total;
        NavControls {
            first_disabled: self.disabled || self.page == 0,
            previous_disabled: self.disabled || self.page == 0,
            next_disabled: self.disabled || at_end,
            last_disabled: self.disabled || at_end,
        }
    }
}

} // verus!
