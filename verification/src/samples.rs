//! Samples on their way from a capture backend to the consumer: how native
//! formats are brought to one scale, when a batch is forwarded, and how
//! single samples are gathered into chunks.
//!
//! A converted sample is an integer numerator over `FULL_SCALE`; the division
//! is left to whoever needs a fraction.

use vstd::prelude::*;

verus! {

/// The denominator of every converted sample.
pub const FULL_SCALE: i32 = 32768;

/// The number of samples that the tap forwarder hands on at once.
pub const CHUNK_SIZE: usize = 1024;

/// The sample formats a device may report.
#[derive(Clone, Copy, Debug, PartialEq, Eq, Structural)]
pub enum SampleFormat {
    I8,
    I16,
    I32,
    I64,
    U8,
    U16,
    U32,
    U64,
    F32,
    F64,
    /// A format this library has no name for.
    Other,
}

/// What is done to a native sample before it is forwarded.
#[derive(Clone, Copy, Debug, PartialEq, Eq, Structural)]
pub enum Conversion {
    /// 32-bit float: forwarded as it is.
    PassThrough,
    /// Signed 16-bit: the sample over `FULL_SCALE`.
    ScaleSigned,
    /// Unsigned 16-bit: the sample less `FULL_SCALE`, over `FULL_SCALE`.
    CenterUnsigned,
}

/// The conversion for a format, where there is one.
pub open spec fn conversion_of(format: SampleFormat) -> Option<Conversion> {
    match format {
        SampleFormat::F32 => Some(Conversion::PassThrough),
        SampleFormat::I16 => Some(Conversion::ScaleSigned),
        SampleFormat::U16 => Some(Conversion::CenterUnsigned),
        _ => None,
    }
}

/// The name a format is reported under.
pub open spec fn format_name(format: SampleFormat) -> Seq<char> {
    match format {
        SampleFormat::I8 => "I8"@,
        SampleFormat::I16 => "I16"@,
        SampleFormat::I32 => "I32"@,
        SampleFormat::I64 => "I64"@,
        SampleFormat::U8 => "U8"@,
        SampleFormat::U16 => "U16"@,
        SampleFormat::U32 => "U32"@,
        SampleFormat::U64 => "U64"@,
        SampleFormat::F32 => "F32"@,
        SampleFormat::F64 => "F64"@,
        SampleFormat::Other => "Other"@,
    }
}

impl SampleFormat {
    /// The conversion for this format; `None` for a format that cannot be
    /// captured.
    pub fn conversion(self) -> (c: Option<Conversion>)
        ensures
            c == conversion_of(self),
    {
        match self {
            SampleFormat::F32 => Some(Conversion::PassThrough),
            SampleFormat::I16 => Some(Conversion::ScaleSigned),
            SampleFormat::U16 => Some(Conversion::CenterUnsigned),
            _ => None,
        }
    }

    /// The name this format is reported under.
    pub fn name(self) -> (n: &'static str)
        ensures
            n@ == format_name(self),
    {
        match self {
            SampleFormat::I8 => "I8",
            SampleFormat::I16 => "I16",
            SampleFormat::I32 => "I32",
            SampleFormat::I64 => "I64",
            SampleFormat::U8 => "U8",
            SampleFormat::U16 => "U16",
            SampleFormat::U32 => "U32",
            SampleFormat::U64 => "U64",
            SampleFormat::F32 => "F32",
            SampleFormat::F64 => "F64",
            SampleFormat::Other => "Other",
        }
    }
}

/// The numerator of an unsigned 16-bit sample: the sample less 32768. Silence
/// (32768) gives 0, the lowest sample gives -32768 and the highest gives
/// 32767, one step short of full scale.
pub open spec fn centered(sample: u16) -> int {
    sample - FULL_SCALE
}

/// Converts one signed 16-bit sample. Its numerator is the sample itself.
pub fn scale_signed(sample: i16) -> (numerator: i16)
    ensures
        numerator == sample,
{
    sample
}

/// Converts one unsigned 16-bit sample.
pub fn center_unsigned(sample: u16) -> (numerator: i16)
    ensures
        numerator == centered(sample),
{
    if sample >= 32768 {
        (sample - 32768) as i16
    } else {
        let below: u16 = 32768 - sample;
        if below == 32768 {
            i16::MIN
        } else {
            -(below as i16)
        }
    }
}

/// Converts a batch of signed 16-bit samples, one for one and in order.
pub fn scale_signed_batch(data: &[i16]) -> (out: Vec<i16>)
    ensures
        out@ == data@,
{
    let mut out: Vec<i16> = Vec::new();
    let mut i: usize = 0;
    while i < data.len()
        invariant
            i <= data.len(),
            out@ == data@.take(i as int),
        decreases data.len() - i,
    {
        out.push(scale_signed(data[i]));
        assert(data@.take(i + 1) =~= data@.take(i as int).push(data@[i as int]));
        i += 1;
    }
    assert(data@.take(data.len() as int) =~= data@);
    out
}

/// Converts a batch of unsigned 16-bit samples: the same formula for every
/// sample, in order.
pub fn center_unsigned_batch(data: &[u16]) -> (out: Vec<i16>)
    ensures
        out@.len() == data@.len(),
        forall|i: int| 0 <= i < data@.len() ==> #[trigger] out@[i] == centered(data@[i]),
{
    let mut out: Vec<i16> = Vec::new();
    let mut i: usize = 0;
    while i < data.len()
        invariant
            i <= data.len(),
            out@.len() == i,
            forall|k: int| 0 <= k < i ==> #[trigger] out@[k] == centered(data@[k]),
        decreases data.len() - i,
    {
        out.push(center_unsigned(data[i]));
        i += 1;
    }
    out
}

/// The stop signal as the audio callback sees it. Once the signal has been
/// seen the latch stays shut.
#[derive(Clone, Copy, Debug, PartialEq, Eq, Structural)]
pub struct StopLatch {
    pub shut: bool,
}

impl StopLatch {
    /// An open latch.
    pub fn new() -> (latch: StopLatch)
        ensures
            !latch.shut,
    {
        StopLatch { shut: false }
    }

    /// Called at the start of every callback with what the non-blocking look
    /// at the stop signal gave. Says whether this callback may forward.
    pub fn may_forward(&mut self, signal_seen: bool) -> (forward: bool)
        ensures
            final(self).shut == (old(self).shut || signal_seen),
            forward == !final(self).shut,
    {
        if signal_seen {
            self.shut = true;
        }
        !self.shut
    }

    /// One callback with signed 16-bit data: the converted batch, or nothing
    /// once the stop signal has been seen.
    pub fn on_signed(&mut self, signal_seen: bool, data: &[i16]) -> (batch: Option<Vec<i16>>)
        ensures
            final(self).shut == (old(self).shut || signal_seen),
            final(self).shut ==> batch is None,
            !final(self).shut ==> (batch matches Some(out) && out@ == data@),
    {
        if self.may_forward(signal_seen) {
            Some(scale_signed_batch(data))
        } else {
            None
        }
    }

    /// One callback with unsigned 16-bit data: the converted batch, or nothing
    /// once the stop signal has been seen.
    pub fn on_unsigned(&mut self, signal_seen: bool, data: &[u16]) -> (batch: Option<Vec<i16>>)
        ensures
            final(self).shut == (old(self).shut || signal_seen),
            final(self).shut ==> batch is None,
            !final(self).shut ==> (batch matches Some(out) && out@.len() == data@.len() && forall|
                i: int,
            | 0 <= i < data@.len() ==> #[trigger] out@[i] == centered(data@[i])),
    {
        if self.may_forward(signal_seen) {
            Some(center_unsigned_batch(data))
        } else {
            None
        }
    }
}

/// The samples still held back after `items` have gone through a forwarder
/// whose every full chunk was delivered: those after the last full chunk.
pub open spec fn held<T>(items: Seq<T>) -> Seq<T> {
    items.skip(items.len() - items.len() % (CHUNK_SIZE as nat))
}

/// The samples handed on in full chunks after `items` have gone through.
pub open spec fn handed_on<T>(items: Seq<T>) -> Seq<T> {
    items.take(items.len() - items.len() % (CHUNK_SIZE as nat))
}

/// What the tap forwarder is told to do next.
#[derive(Debug, PartialEq, Eq)]
pub enum ForwardStep<T> {
    /// Wait for the next sample.
    Poll,
    /// Send this full chunk and report with `chunk_sent`.
    Send(Vec<T>),
    /// Stop. Send these trailing samples first, if there are any.
    Finish(Option<Vec<T>>),
}

/// What a `ForwardStep` stands for in contracts.
pub enum ForwardStepView<T> {
    Poll,
    Send(Seq<T>),
    Finish(Option<Seq<T>>),
}

impl<T> View for ForwardStep<T> {
    type V = ForwardStepView<T>;

    open spec fn view(&self) -> ForwardStepView<T> {
        match self {
            ForwardStep::Poll => ForwardStepView::Poll,
            ForwardStep::Send(chunk) => ForwardStepView::Send(chunk@),
            ForwardStep::Finish(Some(rest)) => ForwardStepView::Finish(Some(rest@)),
            ForwardStep::Finish(None) => ForwardStepView::Finish(None),
        }
    }
}

/// The last step of a forwarder that holds `held_back`: send it if it is not
/// empty, and stop.
pub open spec fn last_step<T>(held_back: Seq<T>) -> ForwardStepView<T> {
    if held_back.len() == 0 {
        ForwardStepView::Finish(None)
    } else {
        ForwardStepView::Finish(Some(held_back))
    }
}

/// What a forwarder that holds `held_back` does with what the source gave:
/// what it holds afterwards, and its step. A sample joins what is held, and
/// the chunk that it fills is to be sent; the end of the source ends
/// forwarding.
pub open spec fn sample_step<T>(held_back: Seq<T>, sample: Option<T>) -> (
    Seq<T>,
    ForwardStepView<T>,
) {
    match sample {
        Some(s) => (
            held_back.push(s),
            if held_back.len() + 1 >= CHUNK_SIZE {
                ForwardStepView::Send(held_back.push(s))
            } else {
                ForwardStepView::Poll
            },
        ),
        None => (held_back, last_step(held_back)),
    }
}

/// What a forwarder that holds the chunk `held_back` does once the chunk was
/// sent: what it holds afterwards, and its step. A delivered chunk is let go;
/// an undelivered one ends forwarding.
pub open spec fn sent_step<T>(held_back: Seq<T>, delivered: bool) -> (Seq<T>, ForwardStepView<T>) {
    if delivered {
        (Seq::empty(), ForwardStepView::Poll)
    } else {
        (held_back, last_step(held_back))
    }
}

/// One sample through a forwarder whose chunks arrive: `sample_step`, and
/// `sent_step` after a chunk. What is held afterwards, and what was sent on
/// the way.
pub open spec fn forward_one<T>(held_back: Seq<T>, sample: T) -> (Seq<T>, Seq<T>) {
    let (joined, step) = sample_step(held_back, Some(sample));
    match step {
        ForwardStepView::Send(chunk) => (sent_step(joined, true).0, chunk),
        _ => (joined, Seq::empty()),
    }
}

/// `items` through a forwarder that held nothing, one by one: what is held
/// afterwards, and all that was sent on the way, in the order of sending.
pub open spec fn forward_all<T>(items: Seq<T>) -> (Seq<T>, Seq<T>)
    decreases items.len(),
{
    if items.len() == 0 {
        (Seq::empty(), Seq::empty())
    } else {
        let (held_back, sent) = forward_all(items.drop_last());
        let (still_held, chunk) = forward_one(held_back, items.last());
        (still_held, sent + chunk)
    }
}

/// Gathers single samples into chunks of `CHUNK_SIZE`.
#[derive(Debug)]
pub struct Rebatcher<T> {
    pub buffer: Vec<T>,
}

impl<T: Copy> Rebatcher<T> {
    /// A forwarder that holds nothing.
    pub fn new() -> (r: Rebatcher<T>)
        ensures
            r.buffer@ == Seq::<T>::empty(),
    {
        Rebatcher { buffer: Vec::new() }
    }

    /// A copy of what is held.
    fn copy_held(&self) -> (out: Vec<T>)
        ensures
            out@ == self.buffer@,
    {
        let mut out: Vec<T> = Vec::new();
        let mut i: usize = 0;
        while i < self.buffer.len()
            invariant
                i <= self.buffer.len(),
                out@ == self.buffer@.take(i as int),
            decreases self.buffer.len() - i,
        {
            out.push(self.buffer[i]);
            assert(self.buffer@.take(i + 1) =~= self.buffer@.take(i as int).push(
                self.buffer@[i as int],
            ));
            i += 1;
        }
        assert(self.buffer@.take(self.buffer.len() as int) =~= self.buffer@);
        out
    }

    /// The end of forwarding: what is held is flushed.
    pub fn finish(&self) -> (step: ForwardStep<T>)
        ensures
            step@ == last_step(self.buffer@),
    {
        if self.buffer.len() == 0 {
            ForwardStep::Finish(None)
        } else {
            ForwardStep::Finish(Some(self.copy_held()))
        }
    }

    /// Called before each sample is awaited, with what the non-blocking look
    /// at the stop signal gave. A seen signal ends forwarding at once.
    pub fn before_sample(&self, signal_seen: bool) -> (step: ForwardStep<T>)
        ensures
            step@ == if signal_seen {
                last_step(self.buffer@)
            } else {
                ForwardStepView::Poll
            },
    {
        if signal_seen {
            self.finish()
        } else {
            ForwardStep::Poll
        }
    }

    /// Called with what the source gave: a sample, or `None` at its end.
    ///
    /// A sample is appended. When that fills a chunk the chunk is to be sent,
    /// and it stays held until `chunk_sent` says that it arrived.
    pub fn on_sample(&mut self, sample: Option<T>) -> (step: ForwardStep<T>)
        ensures
            (final(self).buffer@, step@) == sample_step(old(self).buffer@, sample),
    {
        match sample {
            Some(s) => {
                self.buffer.push(s);
                if self.buffer.len() >= CHUNK_SIZE {
                    ForwardStep::Send(self.copy_held())
                } else {
                    ForwardStep::Poll
                }
            },
            None => self.finish(),
        }
    }

    /// Called after a full chunk was sent. A delivered chunk is let go and
    /// forwarding goes on; an undelivered one stays held and forwarding ends
    /// with one more attempt to send it.
    pub fn chunk_sent(&mut self, delivered: bool) -> (step: ForwardStep<T>)
        ensures
            (final(self).buffer@, step@) == sent_step(old(self).buffer@, delivered),
    {
        if delivered {
            self.buffer.clear();
            ForwardStep::Poll
        } else {
            self.finish()
        }
    }
}

/// The closed forms split what went in: what was handed on in chunks,
/// followed by what is still held, is what went in. Chunks are full, and less
/// than a chunk is held.
pub proof fn lemma_order_kept<T>(items: Seq<T>)
    ensures
        handed_on(items) + held(items) == items,
        handed_on(items).len() % (CHUNK_SIZE as nat) == 0,
        held(items).len() < CHUNK_SIZE,
{
    assert(handed_on(items) + held(items) =~= items);
}

/// One more sample through a forwarder that holds `held(items)`: afterwards
/// it holds `held(items.push(sample))`, and what it sent on the way is what
/// `handed_on` gained. The sample joins what is held, and when that makes a
/// chunk, the chunk goes and nothing is held.
pub proof fn lemma_forward_one<T>(items: Seq<T>, sample: T)
    ensures
        forward_one(held(items), sample).0 == held(items.push(sample)),
        handed_on(items) + forward_one(held(items), sample).1 == handed_on(items.push(sample)),
        forward_one(held(items), sample).1.len() == 0 || forward_one(held(items), sample).1.len()
            == CHUNK_SIZE,
{
    let n = items.len() as int;
    let more = items.push(sample);
    if held(items).len() + 1 < 1024 {
        assert((n + 1) % 1024 == n % 1024 + 1);
        assert(held(more) =~= held(items).push(sample));
        assert(handed_on(items) + Seq::<T>::empty() =~= handed_on(more));
    } else {
        assert(n % 1024 == 1023);
        assert((n + 1) % 1024 == 0);
        assert(held(more) =~= Seq::<T>::empty());
        assert(handed_on(items) + held(items).push(sample) =~= handed_on(more));
    }
}

/// After any run of samples the forwarder holds those after the last full
/// chunk, and has sent all before them.
pub proof fn lemma_forward_all<T>(items: Seq<T>)
    ensures
        forward_all(items) == (held(items), handed_on(items)),
    decreases items.len(),
{
    if items.len() == 0 {
        assert(held(items) =~= Seq::<T>::empty());
        assert(handed_on(items) =~= Seq::<T>::empty());
    } else {
        let front = items.drop_last();
        lemma_forward_all(front);
        lemma_forward_one(front, items.last());
        assert(front.push(items.last()) =~= items);
    }
}

/// Nothing is lost and nothing changes place: what the forwarder sent while
/// `items` went through it, followed by what it flushes at the end, is
/// `items`.
pub proof fn lemma_forwarded_in_order<T>(items: Seq<T>)
    ensures
        forward_all(items).1 + forward_all(items).0 == items,
        forward_all(items).0.len() < CHUNK_SIZE,
        last_step(forward_all(items).0) == if items.len() % (CHUNK_SIZE as nat) == 0 {
            ForwardStepView::Finish(None)
        } else {
            ForwardStepView::Finish(Some(forward_all(items).0))
        },
{
    lemma_forward_all(items);
    lemma_order_kept(items);
}

} // verus!
