//! From raw touchpad reports to swipes.

use crate::touchpad::bindings::TouchpadGesture;
use vstd::prelude::*;

verus! {

use crate::arith::{abs_int, div_toward_zero};

/// How far a centroid has to move before the movement is a swipe.
pub const SWIPE_DISTANCE_THRESHOLD: i64 = 120;

/// A swipe is horizontal or vertical where one axis outweighs the other by this ratio.
pub const DOMINANCE_RATIO_NUMERATOR: i64 = 3;

pub const DOMINANCE_RATIO_DENOMINATOR: i64 = 2;

/// One finger on the touchpad.
#[derive(Clone, Copy, Debug, PartialEq, Eq, Structural)]
pub struct RawTouchContact {
    pub contact_id: u8,
    pub x: i32,
    pub y: i32,
}

#[derive(Clone, Copy, Debug, PartialEq, Eq, Structural)]
pub struct RawTouchPoint {
    pub x: i32,
    pub y: i32,
}

/// One report of the touchpad: at most one of the fingers of a frame.
#[derive(Clone, Copy, Debug, PartialEq, Eq, Structural)]
pub struct ParsedRawTouchpadReport {
    pub scan_time: u16,
    pub contact_count: usize,
    pub contact: Option<RawTouchContact>,
}

/// The way that three or four fingers have taken together.
#[derive(Clone, Copy, Debug, PartialEq, Eq, Structural)]
pub struct SwipeSession {
    pub finger_count: usize,
    pub start_centroid: RawTouchPoint,
    pub last_centroid: RawTouchPoint,
}

pub struct SwipeRecognizer {
    pub session: Option<SwipeSession>,
}

/// Collects the reports of one scan into a frame.
pub struct RawTouchpadFrameAssembler {
    pub active_scan_time: Option<u16>,
    pub expected_contacts: usize,
    pub contacts: Vec<RawTouchContact>,
    pub recognizer: SwipeRecognizer,
}

pub ghost struct AssemblerView {
    pub scan_time: Option<u16>,
    pub expected: usize,
    pub contacts: Seq<RawTouchContact>,
    pub session: Option<SwipeSession>,
}

impl View for RawTouchpadFrameAssembler {
    type V = AssemblerView;

    open spec fn view(&self) -> AssemblerView {
        AssemblerView {
            scan_time: self.active_scan_time,
            expected: self.expected_contacts,
            contacts: self.contacts@,
            session: self.recognizer.session,
        }
    }
}

pub open spec fn sum_x(contacts: Seq<RawTouchContact>) -> int
    decreases contacts.len(),
{
    if contacts.len() == 0 {
        0
    } else {
        sum_x(contacts.drop_last()) + contacts.last().x
    }
}

pub open spec fn sum_y(contacts: Seq<RawTouchContact>) -> int
    decreases contacts.len(),
{
    if contacts.len() == 0 {
        0
    } else {
        sum_y(contacts.drop_last()) + contacts.last().y
    }
}

/// The mean position of the contacts, rounded toward the origin.
pub open spec fn centroid(contacts: Seq<RawTouchContact>) -> RawTouchPoint {
    RawTouchPoint {
        x: div_toward_zero(sum_x(contacts), contacts.len() as int) as i32,
        y: div_toward_zero(sum_y(contacts), contacts.len() as int) as i32,
    }
}

proof fn lemma_sum_bounds(contacts: Seq<RawTouchContact>)
    ensures
        -0x8000_0000 * contacts.len() <= sum_x(contacts) <= 0x7fff_ffff * contacts.len(),
        -0x8000_0000 * contacts.len() <= sum_y(contacts) <= 0x7fff_ffff * contacts.len(),
    decreases contacts.len(),
{
    if contacts.len() > 0 {
        lemma_sum_bounds(contacts.drop_last());
    }
}

proof fn lemma_mean_fits(sum: int, count: int)
    requires
        count > 0,
        -0x8000_0000 * count <= sum <= 0x7fff_ffff * count,
    ensures
        i32::MIN <= div_toward_zero(sum, count) <= i32::MAX,
{
    if sum >= 0 {
        assert(0 <= sum / count <= 0x7fff_ffff) by (nonlinear_arith)
            requires
                count > 0,
                0 <= sum <= 0x7fff_ffff * count,
        ;
    } else {
        assert(0 <= (-sum) / count <= 0x8000_0000) by (nonlinear_arith)
            requires
                count > 0,
                0 <= -sum <= 0x8000_0000 * count,
        ;
    }
}

fn mean(sum: i128, count: usize) -> (r: i32)
    requires
        count > 0,
        -0x8000_0000 * count <= sum <= 0x7fff_ffff * count,
    ensures
        r == div_toward_zero(sum as int, count as int) as i32,
{
    proof {
        lemma_mean_fits(sum as int, count as int);
        assert(0x8000_0000 * count <= 0x8000_0000 * 0x1_0000_0000_0000_0000);
    }
    if sum >= 0 {
        (sum / count as i128) as i32
    } else {
        (-((-sum) / count as i128)) as i32
    }
}

/// The mean position of the contacts.
pub fn centroid_for_contacts(contacts: &[RawTouchContact]) -> (r: RawTouchPoint)
    requires
        contacts.len() > 0,
    ensures
        r == centroid(contacts@),
{
    let mut sum_of_x: i128 = 0;
    let mut sum_of_y: i128 = 0;
    let mut i: usize = 0;
    assert(contacts@.take(0) =~= Seq::empty());
    while i < contacts.len()
        invariant
            i <= contacts.len(),
            sum_of_x == sum_x(contacts@.take(i as int)),
            sum_of_y == sum_y(contacts@.take(i as int)),
        decreases contacts.len() - i,
    {
        proof {
            lemma_sum_bounds(contacts@.take(i as int));
            assert(contacts@.take(i + 1).drop_last() =~= contacts@.take(i as int));
        }
        sum_of_x = sum_of_x + contacts[i].x as i128;
        sum_of_y = sum_of_y + contacts[i].y as i128;
        i = i + 1;
    }
    proof {
        assert(contacts@.take(contacts@.len() as int) =~= contacts@);
        lemma_sum_bounds(contacts@);
    }
    RawTouchPoint { x: mean(sum_of_x, contacts.len()), y: mean(sum_of_y, contacts.len()) }
}

/// The swipe that a session ends as: three or four fingers, far enough, and along one axis
/// clearly more than along the other.
pub open spec fn swipe_of(session: SwipeSession) -> Option<TouchpadGesture> {
    let dx = session.last_centroid.x - session.start_centroid.x;
    let dy = session.last_centroid.y - session.start_centroid.y;
    let far = abs_int(dx) >= SWIPE_DISTANCE_THRESHOLD || abs_int(dy) >= SWIPE_DISTANCE_THRESHOLD;
    let horizontal = abs_int(dx) * DOMINANCE_RATIO_DENOMINATOR >= abs_int(dy)
        * DOMINANCE_RATIO_NUMERATOR;
    let vertical = abs_int(dy) * DOMINANCE_RATIO_DENOMINATOR >= abs_int(dx)
        * DOMINANCE_RATIO_NUMERATOR;
    if !far || horizontal == vertical {
        None
    } else if session.finger_count == 3 {
        if horizontal {
            if dx > 0 {
                Some(TouchpadGesture::ThreeFingerSwipeRight)
            } else {
                Some(TouchpadGesture::ThreeFingerSwipeLeft)
            }
        } else if dy > 0 {
            Some(TouchpadGesture::ThreeFingerSwipeDown)
        } else {
            Some(TouchpadGesture::ThreeFingerSwipeUp)
        }
    } else if session.finger_count == 4 {
        if horizontal {
            if dx > 0 {
                Some(TouchpadGesture::FourFingerSwipeRight)
            } else {
                Some(TouchpadGesture::FourFingerSwipeLeft)
            }
        } else if dy > 0 {
            Some(TouchpadGesture::FourFingerSwipeDown)
        } else {
            Some(TouchpadGesture::FourFingerSwipeUp)
        }
    } else {
        None
    }
}

pub fn recognize_swipe(session: SwipeSession) -> (r: Option<TouchpadGesture>)
    ensures
        r == swipe_of(session),
{
    let dx: i64 = session.last_centroid.x as i64 - session.start_centroid.x as i64;
    let dy: i64 = session.last_centroid.y as i64 - session.start_centroid.y as i64;
    let abs_x: i64 = if dx < 0 {
        -dx
    } else {
        dx
    };
    let abs_y: i64 = if dy < 0 {
        -dy
    } else {
        dy
    };
    if abs_x < SWIPE_DISTANCE_THRESHOLD && abs_y < SWIPE_DISTANCE_THRESHOLD {
        return None;
    }
    let horizontal: bool = abs_x * DOMINANCE_RATIO_DENOMINATOR >= abs_y * DOMINANCE_RATIO_NUMERATOR;
    let vertical: bool = abs_y * DOMINANCE_RATIO_DENOMINATOR >= abs_x * DOMINANCE_RATIO_NUMERATOR;
    if horizontal == vertical {
        return None;
    }
    let forward: bool = if horizontal {
        dx > 0
    } else {
        dy > 0
    };
    if session.finger_count == 3 {
        Some(
            if horizontal && forward {
                TouchpadGesture::ThreeFingerSwipeRight
            } else if horizontal {
                TouchpadGesture::ThreeFingerSwipeLeft
            } else if forward {
                TouchpadGesture::ThreeFingerSwipeDown
            } else {
                TouchpadGesture::ThreeFingerSwipeUp
            },
        )
    } else if session.finger_count == 4 {
        Some(
            if horizontal && forward {
                TouchpadGesture::FourFingerSwipeRight
            } else if horizontal {
                TouchpadGesture::FourFingerSwipeLeft
            } else if forward {
                TouchpadGesture::FourFingerSwipeDown
            } else {
                TouchpadGesture::FourFingerSwipeUp
            },
        )
    } else {
        None
    }
}

/// The session after a frame of contacts: three or four fingers start or continue it, any
/// other number ends it.
pub open spec fn session_after(
    session: Option<SwipeSession>,
    contacts: Seq<RawTouchContact>,
) -> Option<SwipeSession> {
    if contacts.len() == 3 || contacts.len() == 4 {
        match session {
            None => Some(
                SwipeSession {
                    finger_count: contacts.len() as usize,
                    start_centroid: centroid(contacts),
                    last_centroid: centroid(contacts),
                },
            ),
            Some(session) => Some(
                SwipeSession {
                    finger_count: if session.finger_count >= contacts.len() {
                        session.finger_count
                    } else {
                        contacts.len() as usize
                    },
                    last_centroid: centroid(contacts),
                    ..session
                },
            ),
        }
    } else {
        None
    }
}

/// The swipe that a frame of contacts completes.
pub open spec fn swipe_after(
    session: Option<SwipeSession>,
    contacts: Seq<RawTouchContact>,
) -> Option<TouchpadGesture> {
    if contacts.len() == 3 || contacts.len() == 4 {
        None
    } else {
        match session {
            Some(session) => swipe_of(session),
            None => None,
        }
    }
}

impl SwipeRecognizer {
    pub fn new() -> (r: SwipeRecognizer)
        ensures
            r.session is None,
    {
        SwipeRecognizer { session: None }
    }

    /// Takes the contacts of a frame.
    pub fn process_contacts(&mut self, contacts: &[RawTouchContact]) -> (r: Option<
        TouchpadGesture,
    >)
        ensures
            final(self).session == session_after(old(self).session, contacts@),
            r == swipe_after(old(self).session, contacts@),
    {
        let finger_count: usize = contacts.len();
        if !(3 <= finger_count && finger_count <= 4) {
            return self.finish_current_session();
        }
        let centroid: RawTouchPoint = centroid_for_contacts(contacts);
        self.session = Some(
            match self.session {
                None => SwipeSession {
                    finger_count,
                    start_centroid: centroid,
                    last_centroid: centroid,
                },
                Some(session) => SwipeSession {
                    finger_count: if session.finger_count >= finger_count {
                        session.finger_count
                    } else {
                        finger_count
                    },
                    start_centroid: session.start_centroid,
                    last_centroid: centroid,
                },
            },
        );
        None
    }

    /// Ends the session and says what it was.
    pub fn finish_current_session(&mut self) -> (r: Option<TouchpadGesture>)
        ensures
            final(self).session is None,
            r == (match old(self).session {
                Some(session) => swipe_of(session),
                None => None,
            }),
    {
        match self.session.take() {
            Some(session) => recognize_swipe(session),
            None => None,
        }
    }
}

/// A contact put among the others, in place of an earlier one with its number.
pub open spec fn with_contact(
    contacts: Seq<RawTouchContact>,
    contact: RawTouchContact,
) -> Seq<RawTouchContact>
    decreases contacts.len(),
{
    if contacts.len() == 0 {
        seq![contact]
    } else if contacts[0].contact_id == contact.contact_id {
        contacts.update(0, contact)
    } else {
        seq![contacts[0]] + with_contact(contacts.skip(1), contact)
    }
}

/// No two contacts have the same number.
pub open spec fn distinct_contacts(contacts: Seq<RawTouchContact>) -> bool {
    forall|i: int, j: int|
        0 <= i < j < contacts.len() ==> (#[trigger] contacts[i]).contact_id != (
        #[trigger] contacts[j]).contact_id
}

/// A contact takes the place of the one with its number, or the place behind all others.
pub proof fn lemma_with_contact(contacts: Seq<RawTouchContact>, contact: RawTouchContact, at: int)
    requires
        0 <= at <= contacts.len(),
        forall|j: int| 0 <= j < at ==> (#[trigger] contacts[j]).contact_id != contact.contact_id,
        at < contacts.len() ==> contacts[at].contact_id == contact.contact_id,
    ensures
        with_contact(contacts, contact) == (if at < contacts.len() {
            contacts.update(at, contact)
        } else {
            contacts.push(contact)
        }),
    decreases contacts.len(),
{
    if contacts.len() > 0 && at > 0 {
        let rest = contacts.skip(1);
        assert forall|j: int| 0 <= j < at - 1 implies (#[trigger] rest[j]).contact_id
            != contact.contact_id by {
            assert(contacts[j + 1].contact_id != contact.contact_id);
        }
        assert(contacts[0].contact_id != contact.contact_id);
        lemma_with_contact(rest, contact, at - 1);
    }
    if at < contacts.len() {
        assert(with_contact(contacts, contact) =~= contacts.update(at, contact));
    } else {
        assert(with_contact(contacts, contact) =~= contacts.push(contact));
    }
}

impl AssemblerView {
    pub open spec fn wf(self) -> bool {
        distinct_contacts(self.contacts)
    }

    pub open spec fn begun(self, scan_time: u16, contact_count: usize) -> AssemblerView {
        AssemblerView {
            scan_time: Some(scan_time),
            expected: contact_count,
            contacts: Seq::empty(),
            ..self
        }
    }

    pub open spec fn holding(self, contact: Option<RawTouchContact>) -> AssemblerView {
        match contact {
            Some(contact) => AssemblerView {
                contacts: with_contact(self.contacts, contact),
                ..self
            },
            None => self,
        }
    }

    /// Whether the frame is complete.
    pub open spec fn complete(self, reported_contact_count: usize) -> bool {
        reported_contact_count == 0 || (self.expected > 0 && self.contacts.len() >= self.expected)
    }

    pub open spec fn flushed(self) -> (AssemblerView, Option<TouchpadGesture>) {
        (
            AssemblerView {
                scan_time: None,
                expected: 0,
                contacts: Seq::empty(),
                session: session_after(self.session, self.contacts),
            },
            swipe_after(self.session, self.contacts),
        )
    }

    /// A report joins the frame of its scan. A report of another scan first ends the frame;
    /// where that already yields a swipe, a frame that the report completes at once waits
    /// for the next one.
    pub open spec fn after(self, report: ParsedRawTouchpadReport) -> (
        AssemblerView,
        Option<TouchpadGesture>,
    ) {
        if self.scan_time is Some && self.scan_time->0 != report.scan_time {
            let (ended, gesture) = self.flushed();
            let next = ended.begun(report.scan_time, report.contact_count).holding(report.contact);
            if next.complete(report.contact_count) && gesture is None {
                next.flushed()
            } else {
                (next, gesture)
            }
        } else {
            let current = if self.scan_time is None {
                self.begun(report.scan_time, report.contact_count)
            } else {
                self
            };
            let next = current.holding(report.contact);
            if next.complete(report.contact_count) {
                next.flushed()
            } else {
                (next, None)
            }
        }
    }
}

impl Default for RawTouchpadFrameAssembler {
    fn default() -> (r: RawTouchpadFrameAssembler)
        ensures
            r@ == (AssemblerView {
                scan_time: None,
                expected: 0,
                contacts: Seq::empty(),
                session: None,
            }),
    {
        RawTouchpadFrameAssembler {
            active_scan_time: None,
            expected_contacts: 0,
            contacts: Vec::new(),
            recognizer: SwipeRecognizer::new(),
        }
    }
}

impl RawTouchpadFrameAssembler {
    /// Takes a report and says which swipe it completes.
    pub fn process_report(&mut self, report: ParsedRawTouchpadReport) -> (r: Option<
        TouchpadGesture,
    >)
        ensures
            (final(self)@, r) == old(self)@.after(report),
            old(self)@.wf() ==> final(self)@.wf(),
    {
        let other_scan: bool = match self.active_scan_time {
            Some(active_scan_time) => active_scan_time != report.scan_time,
            None => false,
        };
        if other_scan {
            let gesture: Option<TouchpadGesture> = self.flush_frame();
            self.begin_frame(report.scan_time, report.contact_count);
            if let Some(contact) = report.contact {
                self.insert_contact(contact);
            }
            if self.should_flush_current_frame(report.contact_count) && gesture.is_none() {
                return self.flush_frame();
            }
            return gesture;
        }
        if self.active_scan_time.is_none() {
            self.begin_frame(report.scan_time, report.contact_count);
        }
        if let Some(contact) = report.contact {
            self.insert_contact(contact);
        }
        if self.should_flush_current_frame(report.contact_count) {
            return self.flush_frame();
        }
        None
    }

    fn insert_contact(&mut self, contact: RawTouchContact)
        ensures
            final(self)@ == old(self)@.holding(Some(contact)),
            old(self)@.wf() ==> final(self)@.wf(),
    {
        let ghost before = self.contacts@;
        let mut i: usize = 0;
        while i < self.contacts.len()
            invariant
                i <= self.contacts.len(),
                *self == *old(self),
                self.contacts@ == before,
                forall|j: int|
                    0 <= j < i ==> (#[trigger] before[j]).contact_id != contact.contact_id,
            decreases self.contacts.len() - i,
        {
            if self.contacts[i].contact_id == contact.contact_id {
                self.contacts.set(i, contact);
                proof {
                    lemma_with_contact(before, contact, i as int);
                    if distinct_contacts(before) {
                        let after = self.contacts@;
                        assert forall|a: int, b: int| 0 <= a < b < after.len() implies (
                        #[trigger] after[a]).contact_id != (#[trigger] after[b]).contact_id by {
                            assert(before[a].contact_id != before[b].contact_id);
                        }
                    }
                }
                return;
            }
            i = i + 1;
        }
        self.contacts.push(contact);
        proof {
            lemma_with_contact(before, contact, before.len() as int);
            if distinct_contacts(before) {
                let after = self.contacts@;
                assert forall|a: int, b: int| 0 <= a < b < after.len() implies (
                #[trigger] after[a]).contact_id != (#[trigger] after[b]).contact_id by {
                    if b < before.len() {
                        assert(before[a].contact_id != before[b].contact_id);
                    }
                }
            }
        }
    }

    pub fn begin_frame(&mut self, scan_time: u16, contact_count: usize)
        ensures
            final(self)@ == old(self)@.begun(scan_time, contact_count),
    {
        self.active_scan_time = Some(scan_time);
        self.expected_contacts = contact_count;
        self.contacts.clear();
    }

    pub fn should_flush_current_frame(&self, reported_contact_count: usize) -> (r: bool)
        ensures
            r == self@.complete(reported_contact_count),
    {
        reported_contact_count == 0 || (self.expected_contacts > 0 && self.contacts.len()
            >= self.expected_contacts)
    }

    /// Ends the frame.
    pub fn flush_frame(&mut self) -> (r: Option<TouchpadGesture>)
        ensures
            (final(self)@, r) == old(self)@.flushed(),
    {
        self.active_scan_time = None;
        self.expected_contacts = 0;
        let gesture: Option<TouchpadGesture> = self.recognizer.process_contacts(&self.contacts);
        self.contacts.clear();
        gesture
    }

    /// Takes a block of reports of equal size and lists the swipes that they complete.
    pub fn process_raw_reports(&mut self, bytes: &Vec<u8>, report_size: usize) -> (r: Vec<
        TouchpadGesture,
    >)
        requires
            report_size > 0,
        ensures
            (final(self)@, r@) == after_block(old(self)@, bytes@, report_size as int),
    {
        let mut gestures: Vec<TouchpadGesture> = Vec::new();
        let mut at: usize = 0;
        assert(bytes@.skip(0) =~= bytes@);
        while at < bytes.len()
            invariant
                report_size > 0,
                at <= bytes.len(),
                ({
                    let rest = after_block(self@, bytes@.skip(at as int), report_size as int);
                    after_block(old(self)@, bytes@, report_size as int) == (
                        rest.0,
                        gestures@ + rest.1,
                    )
                }),
            decreases bytes.len() - at,
        {
            let end: usize = if bytes.len() - at < report_size {
                bytes.len()
            } else {
                at + report_size
            };
            let report: Vec<u8> = copy_bytes(bytes, at, end);
            let ghost rest = bytes@.skip(at as int);
            proof {
                assert(rest.take(end - at) =~= report@);
                assert(rest.skip(end - at) =~= bytes@.skip(end as int));
            }
            let ghost before = gestures@;
            if let Some(parsed) = parse_sample_touchpad_report(&report) {
                if let Some(gesture) = self.process_report(parsed) {
                    gestures.push(gesture);
                }
            }
            proof {
                let tail = after_block(self@, bytes@.skip(end as int), report_size as int).1;
                assert(gestures@ + tail =~= before + (gestures@.skip(before.len() as int) + tail));
                assert(seq![gestures@.last()] + tail =~= gestures@.skip(
                    before.len() as int,
                ) + tail || gestures@ =~= before);
                assert(gestures@ =~= before ==> gestures@.skip(before.len() as int) + tail
                    =~= tail);
            }
            at = end;
        }
        proof {
            assert(bytes@.skip(at as int) =~= Seq::empty());
            assert(gestures@ + Seq::<TouchpadGesture>::empty() =~= gestures@);
        }
        gestures
    }
}

fn copy_bytes(bytes: &Vec<u8>, from: usize, to: usize) -> (r: Vec<u8>)
    requires
        from <= to <= bytes.len(),
    ensures
        r@ == bytes@.subrange(from as int, to as int),
{
    let mut r: Vec<u8> = Vec::new();
    let mut i: usize = from;
    while i < to
        invariant
            from <= i <= to <= bytes.len(),
            r@ == bytes@.subrange(from as int, i as int),
        decreases to - i,
    {
        r.push(bytes[i]);
        assert(bytes@.subrange(from as int, i as int).push(bytes@[i as int]) =~= bytes@.subrange(
            from as int,
            i + 1,
        ));
        i = i + 1;
    }
    r
}

/// The first report of a block is taken, then the rest of the block.
pub open spec fn after_block(
    assembler: AssemblerView,
    bytes: Seq<u8>,
    report_size: int,
) -> (AssemblerView, Seq<TouchpadGesture>)
    decreases bytes.len(),
    when report_size > 0
{
    if bytes.len() == 0 {
        (assembler, Seq::empty())
    } else {
        let cut = if bytes.len() < report_size {
            bytes.len() as int
        } else {
            report_size
        };
        match parsed_report(bytes.take(cut)) {
            None => after_block(assembler, bytes.skip(cut), report_size),
            Some(report) => {
                let (next, gesture) = assembler.after(report);
                let rest = after_block(next, bytes.skip(cut), report_size);
                match gesture {
                    Some(gesture) => (rest.0, seq![gesture] + rest.1),
                    None => rest,
                }
            },
        }
    }
}

/// Two bytes, the low one first.
pub open spec fn little_endian(low: u8, high: u8) -> int {
    low + 256 * high
}

/// The fields of a report. A report of ten or more bytes starts with its number; the bits
/// of the first byte behind it are confidence, contact, and two bits of the finger's
/// number.
pub open spec fn parsed_report(report: Seq<u8>) -> Option<ParsedRawTouchpadReport> {
    if report.len() < 9 {
        None
    } else {
        let at = if report.len() >= 10 {
            1
        } else {
            0int
        };
        let header = report[at];
        Some(
            ParsedRawTouchpadReport {
                scan_time: little_endian(report[at + 5], report[at + 6]) as u16,
                contact_count: report[at + 7] as usize,
                contact: if header % 2 == 1 && (header / 2) % 2 == 1 {
                    Some(
                        RawTouchContact {
                            contact_id: ((header / 4) % 4) as u8,
                            x: little_endian(report[at + 1], report[at + 2]) as i32,
                            y: little_endian(report[at + 3], report[at + 4]) as i32,
                        },
                    )
                } else {
                    None
                },
            },
        )
    }
}

/// Reads the fields of a report.
pub fn parse_sample_touchpad_report(report: &[u8]) -> (r: Option<ParsedRawTouchpadReport>)
    ensures
        r == parsed_report(report@),
{
    let len: usize = report.len();
    let offset: usize = if len >= 10 {
        1
    } else if len >= 9 {
        0
    } else {
        return None;
    };
    let header: u8 = report[offset];
    let contact_id: u8 = (header / 4) % 4;
    let tip_switch: bool = (header / 2) % 2 == 1;
    let confidence: bool = header % 2 == 1;
    let x: i32 = report[offset + 1] as i32 + 256 * report[offset + 2] as i32;
    let y: i32 = report[offset + 3] as i32 + 256 * report[offset + 4] as i32;
    let scan_time: u16 = (report[offset + 5] as u32 + 256 * report[offset + 6] as u32) as u16;
    let contact_count: usize = report[offset + 7] as usize;
    let contact: Option<RawTouchContact> = if tip_switch && confidence {
        Some(RawTouchContact { contact_id, x, y })
    } else {
        None
    };
    Some(ParsedRawTouchpadReport { scan_time, contact_count, contact })
}

/// Ending a frame leaves no contact of it behind.
pub proof fn law_flush_empties_the_frame(assembler: AssemblerView)
    ensures
        assembler.flushed().0.contacts.len() == 0,
        assembler.flushed().0.scan_time is None,
{
}

/// A movement below the threshold on both axes, one that goes as far along one axis as along
/// the other, and one of fewer than three or more than four fingers is no swipe.
pub proof fn law_swipes_need_distance_and_direction(session: SwipeSession)
    ensures
        ({
            let dx = session.last_centroid.x - session.start_centroid.x;
            let dy = session.last_centroid.y - session.start_centroid.y;
            &&& abs_int(dx) < SWIPE_DISTANCE_THRESHOLD && abs_int(dy) < SWIPE_DISTANCE_THRESHOLD
                ==> swipe_of(session) is None
            &&& abs_int(dx) == abs_int(dy) ==> swipe_of(session) is None
            &&& swipe_of(session) is Some ==> session.finger_count == 3 || session.finger_count
                == 4
        }),
{
}

/// The gesture that goes the other way.
pub open spec fn reversed(gesture: TouchpadGesture) -> TouchpadGesture {
    match gesture {
        TouchpadGesture::ThreeFingerSwipeLeft => TouchpadGesture::ThreeFingerSwipeRight,
        TouchpadGesture::ThreeFingerSwipeRight => TouchpadGesture::ThreeFingerSwipeLeft,
        TouchpadGesture::ThreeFingerSwipeUp => TouchpadGesture::ThreeFingerSwipeDown,
        TouchpadGesture::ThreeFingerSwipeDown => TouchpadGesture::ThreeFingerSwipeUp,
        TouchpadGesture::FourFingerSwipeLeft => TouchpadGesture::FourFingerSwipeRight,
        TouchpadGesture::FourFingerSwipeRight => TouchpadGesture::FourFingerSwipeLeft,
        TouchpadGesture::FourFingerSwipeUp => TouchpadGesture::FourFingerSwipeDown,
        TouchpadGesture::FourFingerSwipeDown => TouchpadGesture::FourFingerSwipeUp,
    }
}

/// The same movement made backwards is the opposite swipe, or none where it was none.
pub proof fn law_backward_movement_is_the_opposite_swipe(
    session: SwipeSession,
    backward: SwipeSession,
)
    requires
        backward.finger_count == session.finger_count,
        backward.start_centroid == session.last_centroid,
        backward.last_centroid == session.start_centroid,
    ensures
        swipe_of(backward) == (match swipe_of(session) {
            Some(gesture) => Some(reversed(gesture)),
            None => None,
        }),
{
}

/// Coordinates of a parsed report are 16-bit numbers, and its finger is one of four.
pub proof fn law_reports_are_bounded(report: Seq<u8>)
    ensures
        parsed_report(report) matches Some(parsed) ==> (parsed.contact matches Some(contact) ==> 0
            <= contact.x <= 0xffff && 0 <= contact.y <= 0xffff && contact.contact_id < 4),
        parsed_report(report) is Some <==> report.len() >= 9,
{
}

/// Which swipe a movement is depends on the fingers and on the way that they took: at least
/// 120 units along one axis, and at least one and a half times as far as along the other. It
/// goes right where the last centroid lies to the right of the first one, left where it lies to
/// the left, down where it lies below and up where it lies above, whatever the movement along
/// the other axis.
pub proof fn law_swipes_go_where_the_fingers_went(session: SwipeSession)
    ensures
        ({
            let n = session.finger_count;
            let right = session.last_centroid.x - session.start_centroid.x;
            let left = session.start_centroid.x - session.last_centroid.x;
            let down = session.last_centroid.y - session.start_centroid.y;
            let up = session.start_centroid.y - session.last_centroid.y;
            let swiped_right = right >= 120 && 2 * right >= 3 * down && 2 * right >= 3 * up;
            let swiped_left = left >= 120 && 2 * left >= 3 * down && 2 * left >= 3 * up;
            let swiped_down = down >= 120 && 2 * down >= 3 * right && 2 * down >= 3 * left;
            let swiped_up = up >= 120 && 2 * up >= 3 * right && 2 * up >= 3 * left;
            let swipe = swipe_of(session);
            &&& swipe == Some(TouchpadGesture::ThreeFingerSwipeRight) <==> n == 3 && swiped_right
            &&& swipe == Some(TouchpadGesture::ThreeFingerSwipeLeft) <==> n == 3 && swiped_left
            &&& swipe == Some(TouchpadGesture::ThreeFingerSwipeDown) <==> n == 3 && swiped_down
            &&& swipe == Some(TouchpadGesture::ThreeFingerSwipeUp) <==> n == 3 && swiped_up
            &&& swipe == Some(TouchpadGesture::FourFingerSwipeRight) <==> n == 4 && swiped_right
            &&& swipe == Some(TouchpadGesture::FourFingerSwipeLeft) <==> n == 4 && swiped_left
            &&& swipe == Some(TouchpadGesture::FourFingerSwipeDown) <==> n == 4 && swiped_down
            &&& swipe == Some(TouchpadGesture::FourFingerSwipeUp) <==> n == 4 && swiped_up
        }),
{
}

/// What is recognised goes where the fingers went.
pub proof fn law_recognized_swipes_go_where_the_fingers_went(
    session: SwipeSession,
    swipe: Option<TouchpadGesture>,
)
    requires
        call_ensures(recognize_swipe, (session,), swipe),
    ensures
        ({
            let n = session.finger_count;
            let right = session.last_centroid.x - session.start_centroid.x;
            let left = session.start_centroid.x - session.last_centroid.x;
            let down = session.last_centroid.y - session.start_centroid.y;
            let up = session.start_centroid.y - session.last_centroid.y;
            let swiped_right = right >= 120 && 2 * right >= 3 * down && 2 * right >= 3 * up;
            let swiped_left = left >= 120 && 2 * left >= 3 * down && 2 * left >= 3 * up;
            let swiped_down = down >= 120 && 2 * down >= 3 * right && 2 * down >= 3 * left;
            let swiped_up = up >= 120 && 2 * up >= 3 * right && 2 * up >= 3 * left;
            &&& swipe == Some(TouchpadGesture::ThreeFingerSwipeRight) <==> n == 3 && swiped_right
            &&& swipe == Some(TouchpadGesture::ThreeFingerSwipeLeft) <==> n == 3 && swiped_left
            &&& swipe == Some(TouchpadGesture::ThreeFingerSwipeDown) <==> n == 3 && swiped_down
            &&& swipe == Some(TouchpadGesture::ThreeFingerSwipeUp) <==> n == 3 && swiped_up
            &&& swipe == Some(TouchpadGesture::FourFingerSwipeRight) <==> n == 4 && swiped_right
            &&& swipe == Some(TouchpadGesture::FourFingerSwipeLeft) <==> n == 4 && swiped_left
            &&& swipe == Some(TouchpadGesture::FourFingerSwipeDown) <==> n == 4 && swiped_down
            &&& swipe == Some(TouchpadGesture::FourFingerSwipeUp) <==> n == 4 && swiped_up
        }),
{
    law_swipes_go_where_the_fingers_went(session);
}

/// Where the movement starts makes no difference to the swipe, and neither does a movement
/// across its direction that stays below two thirds of it.
pub proof fn law_swipes_depend_on_the_movement_alone(session: SwipeSession, moved: SwipeSession)
    requires
        moved.finger_count == session.finger_count,
        moved.last_centroid.x - moved.start_centroid.x == session.last_centroid.x
            - session.start_centroid.x,
        moved.last_centroid.y - moved.start_centroid.y == session.last_centroid.y
            - session.start_centroid.y,
    ensures
        swipe_of(moved) == swipe_of(session),
{
}

/// The centroid of three or four fingers is their mean position: so many times its coordinate
/// and a rest that is smaller than the number of fingers make up the sum of their coordinates,
/// and the rest has the sign of that sum.
pub proof fn law_centroids_are_means(contacts: Seq<RawTouchContact>)
    requires
        contacts.len() == 3 || contacts.len() == 4,
    ensures
        ({
            let n = contacts.len() as int;
            let (x, y) = if n == 3 {
                (
                    contacts[0].x + contacts[1].x + contacts[2].x,
                    contacts[0].y + contacts[1].y + contacts[2].y,
                )
            } else {
                (
                    contacts[0].x + contacts[1].x + contacts[2].x + contacts[3].x,
                    contacts[0].y + contacts[1].y + contacts[2].y + contacts[3].y,
                )
            };
            let mean = centroid(contacts);
            &&& x >= 0 ==> 0 <= x - n * mean.x < n
            &&& x <= 0 ==> 0 <= n * mean.x - x < n
            &&& y >= 0 ==> 0 <= y - n * mean.y < n
            &&& y <= 0 ==> 0 <= n * mean.y - y < n
        }),
{
    let n = contacts.len() as int;
    reveal_with_fuel(sum_x, 5);
    reveal_with_fuel(sum_y, 5);
    lemma_sum_bounds(contacts);
    lemma_mean_fits(sum_x(contacts), n);
    lemma_mean_fits(sum_y(contacts), n);
    if n == 3 {
        assert(n * centroid(contacts).x == 3 * centroid(contacts).x);
        assert(n * centroid(contacts).y == 3 * centroid(contacts).y);
    } else {
        assert(n * centroid(contacts).x == 4 * centroid(contacts).x);
        assert(n * centroid(contacts).y == 4 * centroid(contacts).y);
    }
}

/// A swipe goes from the centroid of the first frame of three or four fingers to that of the
/// last one, counts the most fingers that were seen, and is told when fewer or more touch.
pub proof fn law_a_swipe_lasts_until_the_fingers_leave(
    first: Seq<RawTouchContact>,
    next: Seq<RawTouchContact>,
    end: Seq<RawTouchContact>,
    session: Option<SwipeSession>,
)
    requires
        first.len() == 3 || first.len() == 4,
        next.len() == 3 || next.len() == 4,
        end.len() != 3 && end.len() != 4,
    ensures
        ({
            let begun = session_after(None, first);
            let continued = session_after(session, next);
            &&& begun matches Some(begun) && begun.start_centroid == centroid(first)
                && begun.last_centroid == centroid(first) && begun.finger_count == first.len()
            &&& swipe_after(session, next) is None
            &&& continued matches Some(continued) && continued.last_centroid == centroid(next)
                && continued.finger_count >= next.len()
            &&& session matches Some(session) ==> (continued->0).start_centroid
                == session.start_centroid && (continued->0).finger_count >= session.finger_count
                && ((continued->0).finger_count == session.finger_count
                || (continued->0).finger_count == next.len())
            &&& session_after(session, end) is None
            &&& session is None ==> swipe_after(session, end) is None
            &&& session matches Some(session) ==> swipe_after(Some(session), end) == swipe_of(
                session,
            )
        }),
{
}

/// A report holds, behind a byte with its number where it has one, a byte of flags, two bytes
/// each of the finger's position and of the time, low byte first, and the number of fingers.
/// The finger counts where both of the lowest flags are set; the next two bits are its number.
pub proof fn law_reports_are_read_byte_by_byte(report: Seq<u8>, number: u8)
    requires
        report.len() >= 9,
    ensures
        parsed_report(seq![number] + report.take(9)) == parsed_report(report.take(9)),
        parsed_report(report) == (if report.len() == 9 {
            parsed_report(report.take(9))
        } else {
            parsed_report(report.take(10))
        }),
        parsed_report(report.take(9)) matches Some(parsed) && {
            &&& parsed.scan_time == report[5] + 256 * report[6]
            &&& parsed.contact_count == report[7]
            &&& parsed.contact is Some <==> report[0] & 3 == 3
            &&& parsed.contact matches Some(contact) ==> {
                &&& contact.contact_id == (report[0] >> 2) & 3
                &&& contact.x == report[1] + 256 * report[2]
                &&& contact.y == report[3] + 256 * report[4]
            }
        },
        report.len() >= 10 ==> parsed_report(report.take(10)) == parsed_report(
            report.subrange(1, 10),
        ),
{
    let header = report[0];
    assert((header & 3 == 3) == (header % 2 == 1 && (header / 2) % 2 == 1)) by (bit_vector);
    assert((header >> 2) & 3 == (header / 4) % 4) by (bit_vector);
    assert((seq![number] + report.take(9)).len() == 10);
}

/// A finger is kept once: the newest position under its number is the one that counts, and the
/// other fingers stay as they were.
pub proof fn law_the_newest_position_counts(
    contacts: Seq<RawTouchContact>,
    contact: RawTouchContact,
    i: int,
)
    requires
        distinct_contacts(contacts),
    ensures
        with_contact(contacts, contact).contains(contact),
        0 <= i < contacts.len() && contacts[i].contact_id != contact.contact_id
            ==> with_contact(contacts, contact)[i] == contacts[i],
        0 <= i < contacts.len() && contacts[i].contact_id == contact.contact_id
            ==> with_contact(contacts, contact) == contacts.update(i, contact),
        (forall|j: int|
            0 <= j < contacts.len() ==> (#[trigger] contacts[j]).contact_id != contact.contact_id)
            ==> with_contact(contacts, contact) == contacts.push(contact),
{
    if exists|j: int|
        0 <= j < contacts.len() && (#[trigger] contacts[j]).contact_id == contact.contact_id {
        let at = choose|j: int|
            0 <= j < contacts.len() && (#[trigger] contacts[j]).contact_id == contact.contact_id;
        assert forall|j: int| 0 <= j < at implies (#[trigger] contacts[j]).contact_id
            != contact.contact_id by {}
        lemma_with_contact(contacts, contact, at);
        assert(contacts.update(at, contact)[at] == contact);
        if 0 <= i < contacts.len() && contacts[i].contact_id == contact.contact_id {
            assert(i == at);
        }
    } else {
        lemma_with_contact(contacts, contact, contacts.len() as int);
        assert(contacts.push(contact)[contacts.len() as int] == contact);
    }
}

/// A frame ends when every finger that was announced has been reported, when no finger is
/// left, and when a report of another scan comes; until then reports only gather.
pub proof fn law_frames_gather_one_scan(assembler: AssemblerView, report: ParsedRawTouchpadReport)
    ensures
        ({
            let fresh = assembler.scan_time is None;
            let same = assembler.scan_time == Some(report.scan_time);
            let known = if fresh {
                Seq::empty()
            } else {
                assembler.contacts
            };
            let announced = if fresh {
                report.contact_count
            } else {
                assembler.expected
            };
            let gathered = match report.contact {
                Some(contact) => with_contact(known, contact),
                None => known,
            };
            let full = report.contact_count == 0 || (announced > 0 && gathered.len()
                >= announced);
            let (next, gesture) = assembler.after(report);
            (fresh || same) ==> if full {
                &&& next.contacts.len() == 0 && next.scan_time is None
                &&& next.session == session_after(assembler.session, gathered)
                &&& gesture == swipe_after(assembler.session, gathered)
            } else {
                &&& next.contacts == gathered && next.scan_time == Some(report.scan_time)
                &&& next.expected == announced
                &&& next.session == assembler.session
                &&& gesture is None
            }
        }),
        ({
            let ended = session_after(assembler.session, assembler.contacts);
            let told = swipe_after(assembler.session, assembler.contacts);
            let alone = match report.contact {
                Some(contact) => seq![contact],
                None => Seq::empty(),
            };
            let full = report.contact_count == 0 || alone.len() >= report.contact_count;
            let (next, gesture) = assembler.after(report);
            (assembler.scan_time is Some && assembler.scan_time != Some(report.scan_time)) ==> if full
                && told is None {
                &&& next.contacts.len() == 0 && next.scan_time is None
                &&& next.session == session_after(ended, alone)
                &&& gesture == swipe_after(ended, alone)
            } else {
                &&& next.contacts == alone && next.scan_time == Some(report.scan_time)
                &&& next.expected == report.contact_count
                &&& next.session == ended
                &&& gesture == told
            }
        }),
{
}

/// A block of reports is taken report by report: what the first ones complete comes first.
pub proof fn law_blocks_are_taken_report_by_report(
    assembler: AssemblerView,
    first: Seq<u8>,
    rest: Seq<u8>,
)
    requires
        first.len() > 0,
    ensures
        ({
            let size = first.len() as int;
            let (next, told) = match parsed_report(first) {
                None => (assembler, None),
                Some(report) => assembler.after(report),
            };
            let later = after_block(next, rest, size);
            let (end, gestures) = after_block(assembler, first + rest, size);
            &&& end == later.0
            &&& gestures == (match told {
                Some(gesture) => seq![gesture] + later.1,
                None => later.1,
            })
            &&& after_block(assembler, Seq::empty(), size) == (
                assembler,
                Seq::<TouchpadGesture>::empty(),
            )
        }),
{
    let block = first + rest;
    assert(block.take(first.len() as int) =~= first);
    assert(block.skip(first.len() as int) =~= rest);
}

/// A frame that ends leaves nothing behind: the next report begins a frame of its own.
pub proof fn law_ended_frames_leave_nothing_behind(assembler: AssemblerView)
    ensures
        ({
            let (next, gesture) = assembler.flushed();
            &&& next.scan_time is None && next.expected == 0 && next.contacts.len() == 0
            &&& next.session == session_after(assembler.session, assembler.contacts)
            &&& gesture == swipe_after(assembler.session, assembler.contacts)
        }),
{
}

} // verus!
