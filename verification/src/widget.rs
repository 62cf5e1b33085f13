//! The widget itself: configuration, intake mode, the single-slot latest
//! frame, the ring texture, and the animation lifecycle, with one transition
//! function per event. The embedding owns the canvas, the GL handles and the
//! socket; it drives these transitions and performs exactly the effects their
//! results call for.
//!
//! Intake mode is fixed at creation: a non-empty endpoint address selects
//! streaming mode, an empty one polling mode. A later property change adopts
//! the new values but never changes the intake mode or reconnects — that is
//! this widget's documented policy; a new endpoint takes effect only through
//! a full re-creation.
//!
//! Inbound messages that fail to decode are dropped and the previous frame
//! kept; only frame and message sizes are validated, and rejection is
//! deterministic: a malformed input changes nothing.

use crate::codec::{check_frame, decode_message, frame_words, message_well_sized, FrameError,
    FRAME_BINS};
use crate::ring::{advance, zero_rows, RingTexture, COLS, ROWS};
use vstd::prelude::*;

verus! {

/// What the streaming connection reported: mirrored from the socket service
/// by the embedding. Status changes are observed and logged only; none of
/// them alters the widget's state.
#[derive(Clone, Copy, Debug, PartialEq, Eq, Structural)]
pub enum ConnectionStatus {
    Opened,
    Closed,
    Error,
}

/// One inbound event: a binary message (or a transport error) from the
/// streaming connection, a connection status change, or an animation tick
/// carrying the host's timestamp in milliseconds.
pub enum Msg {
    Data(Result<Vec<u8>, String>),
    Status(ConnectionStatus),
    Render(u64),
}

/// The animation driver's phase: created but not yet drawn, running the
/// self-rescheduling render loop, or torn down.
#[derive(Clone, Copy, Debug, PartialEq, Eq, Structural)]
pub enum Lifecycle {
    Created,
    Running,
    Destroyed,
}

/// The widget's configuration: the endpoint address of the streaming
/// connection (empty for polling mode), and the display range as the bit
/// patterns of its two 32-bit float bounds. The bounds pass through this
/// crate untouched; the embedding maps samples to bytes with them.
pub struct Props {
    pub url: String,
    pub min_bits: u32,
    pub max_bits: u32,
}

impl vstd::std_specs::cmp::PartialEqSpecImpl for Props {
    open spec fn obeys_eq_spec() -> bool {
        true
    }

    open spec fn eq_spec(&self, other: &Props) -> bool {
        self.url@ == other.url@ && self.min_bits == other.min_bits && self.max_bits
            == other.max_bits
    }
}

impl PartialEq for Props {
    fn eq(&self, other: &Props) -> (r: bool) {
        self.url == other.url && self.min_bits == other.min_bits && self.max_bits == other.max_bits
    }
}

/// The widget's whole visible state.
#[verifier::ext_equal]
pub ghost struct Model {
    pub url: Seq<char>,
    pub min_bits: u32,
    pub max_bits: u32,
    pub lifecycle: Lifecycle,
    pub streaming: bool,
    pub connection_open: bool,
    pub latest: Seq<u32>,
    pub rows: Seq<Seq<u8>>,
    pub offset: int,
}

/// The state a fresh widget starts in.
pub open spec fn created_model(url: Seq<char>, min_bits: u32, max_bits: u32) -> Model {
    Model {
        url: url,
        min_bits: min_bits,
        max_bits: max_bits,
        lifecycle: Lifecycle::Created,
        streaming: url.len() > 0,
        connection_open: url.len() > 0,
        latest: Seq::new(FRAME_BINS as nat, |i: int| 0u32),
        rows: zero_rows(),
        offset: 0,
    }
}

/// The latest-frame slot after one inbound payload: a well-sized binary
/// message replaces the slot, anything else (a transport error or a message
/// of the wrong size) leaves it alone.
pub open spec fn latest_after(latest: Seq<u32>, payload: Option<Seq<u8>>) -> Seq<u32> {
    match payload {
        Option::Some(b) => if message_well_sized(b) {
            frame_words(b)
        } else {
            latest
        },
        Option::None => latest,
    }
}

/// The state after one inbound data event.
pub open spec fn data_model(m: Model, payload: Option<Seq<u8>>) -> Model {
    Model { latest: latest_after(m.latest, payload), ..m }
}

/// The state after one render tick handed the byte row `row`: a running
/// widget writes the row at the write offset and advances the offset; a
/// widget in any other phase, or a row of the wrong width, changes nothing.
pub open spec fn tick_model(m: Model, row: Seq<u8>) -> Model {
    if m.lifecycle is Running && row.len() == COLS {
        Model { rows: m.rows.update(m.offset, row), offset: advance(m.offset), ..m }
    } else {
        m
    }
}

/// The state after teardown: the lifecycle ends and the connection is no
/// longer held open.
pub open spec fn destroyed_model(m: Model) -> Model {
    Model { lifecycle: Lifecycle::Destroyed, connection_open: false, ..m }
}

/// The payload carried by a data event: the message bytes, or nothing for a
/// transport error.
pub open spec fn payload_of(payload: Result<Vec<u8>, String>) -> Option<Seq<u8>> {
    match payload {
        Result::Ok(b) => Option::Some(b@),
        Result::Err(_) => Option::None,
    }
}

/// What one render tick asks of the embedding: whether a row was written
/// (and must be mirrored into the GPU texture), which row it was, and
/// whether the loop schedules another frame. The scroll uniform of the draw
/// call is `row_index` over the row count.
#[derive(Clone, Copy, Debug, PartialEq, Eq, Structural)]
pub struct RenderStep {
    pub wrote: bool,
    pub row_index: usize,
    pub reschedule: bool,
}

/// The widget: its configuration, intake mode, latest-frame slot, ring
/// texture and lifecycle phase.
pub struct Frequency {
    props: Props,
    lifecycle: Lifecycle,
    streaming: bool,
    connection_open: bool,
    latest: Vec<u32>,
    ring: RingTexture,
}

impl Frequency {
    /// The widget's visible state.
    pub closed spec fn model(&self) -> Model {
        Model {
            url: self.props.url@,
            min_bits: self.props.min_bits,
            max_bits: self.props.max_bits,
            lifecycle: self.lifecycle,
            streaming: self.streaming,
            connection_open: self.connection_open,
            latest: self.latest@,
            rows: self.ring.rows(),
            offset: self.ring.offset(),
        }
    }

    /// Structural invariant: a full latest-frame slot, a well-formed ring,
    /// and a connection only ever held in streaming mode.
    pub closed spec fn wf(&self) -> bool {
        &&& self.latest@.len() == FRAME_BINS
        &&& self.ring.wf()
        &&& self.connection_open ==> self.streaming
    }

    /// Create a widget from its configuration. A non-empty endpoint address
    /// selects streaming mode, in which the embedding opens the binary
    /// connection at once; an empty one selects polling mode. The latest
    /// frame starts all zero, and the ring texture is allocated zero-filled.
    pub fn create(props: Props) -> (w: Frequency)
        ensures
            w.wf(),
            w.model() == created_model(props.url@, props.min_bits, props.max_bits),
    {
        let streaming = !props.url.as_str().is_empty();
        let w = Frequency {
            props,
            lifecycle: Lifecycle::Created,
            streaming,
            connection_open: streaming,
            latest: zero_frame(),
            ring: RingTexture::new(),
        };
        proof {
            assert(w.latest@ =~= Seq::new(FRAME_BINS as nat, |i: int| 0u32));
            assert(w.model() =~~= created_model(w.props.url@, w.props.min_bits, w.props.max_bits));
        }
        w
    }

    /// Whether the widget is in streaming mode.
    pub fn is_streaming(&self) -> (r: bool)
        ensures
            r == self.model().streaming,
    {
        self.streaming
    }

    /// Whether the next render tick must first poll the host's sample
    /// accessor: only a running widget in polling mode pulls samples.
    pub fn needs_poll(&self) -> (r: bool)
        ensures
            r == (!self.model().streaming && self.model().lifecycle is Running),
    {
        !self.streaming && matches!(self.lifecycle, Lifecycle::Running)
    }

    /// Store one polled sample frame, given as the bit patterns of the
    /// accessor's floats. Exactly the frames with one word per bin are
    /// accepted; any other length is rejected whole and changes nothing.
    pub fn poll(&mut self, samples: Vec<u32>) -> (r: Result<(), FrameError>)
        requires
            old(self).wf(),
            !old(self).model().streaming,
        ensures
            final(self).wf(),
            r is Ok <==> samples@.len() == FRAME_BINS,
            r is Ok ==> final(self).model() == (Model { latest: samples@, ..old(self).model() }),
            r is Err ==> final(self).model() == old(self).model() && r->Err_0
                == FrameError::WrongLength,
    {
        match check_frame(samples) {
            Result::Ok(frame) => {
                self.latest = frame;
                proof {
                    assert(self.model() =~~= (Model { latest: self.latest@, ..old(self).model() }));
                }
                Result::Ok(())
            },
            Result::Err(e) => {
                proof {
                    assert(self.model() =~~= old(self).model());
                }
                Result::Err(e)
            },
        }
    }

    /// Handle one inbound data event from the streaming connection: a
    /// well-sized binary message becomes the latest frame, overwriting any
    /// unconsumed one — last write wins. A transport error or a message of
    /// the wrong size is dropped and the previous frame kept. Never asks for
    /// a re-render; the animation loop consumes the frame on its own tick.
    pub fn handle_data(&mut self, payload: Result<Vec<u8>, String>) -> (render: bool)
        requires
            old(self).wf(),
        ensures
            final(self).wf(),
            !render,
            final(self).model() == data_model(old(self).model(), payload_of(payload)),
    {
        match payload {
            Result::Ok(bytes) => {
                match decode_message(&bytes) {
                    Result::Ok(words) => {
                        self.latest = words;
                        proof {
                            assert(self.model() =~~= data_model(
                                old(self).model(),
                                Option::Some(bytes@),
                            ));
                        }
                    },
                    Result::Err(_) => {
                        proof {
                            assert(self.model() =~~= data_model(
                                old(self).model(),
                                Option::Some(bytes@),
                            ));
                        }
                    },
                }
            },
            Result::Err(_) => {
                proof {
                    assert(self.model() =~~= data_model(old(self).model(), Option::None));
                }
            },
        }
        false
    }

    /// Observe a connection status change: logged by the embedding, ignored
    /// here — no reconnect, no mode change, no re-render.
    pub fn handle_status(&self, _status: ConnectionStatus) -> (render: bool)
        ensures
            !render,
    {
        false
    }

    /// Note that the view was rendered into the page. On the first render
    /// the animation loop starts: the caller must schedule the first frame
    /// callback exactly when `schedule` is returned true.
    pub fn rendered(&mut self, first_render: bool) -> (schedule: bool)
        requires
            old(self).wf(),
        ensures
            final(self).wf(),
            schedule == (first_render && old(self).model().lifecycle is Created),
            schedule ==> final(self).model() == (Model {
                lifecycle: Lifecycle::Running,
                ..old(self).model()
            }),
            !schedule ==> final(self).model() == old(self).model(),
    {
        if first_render && matches!(self.lifecycle, Lifecycle::Created) {
            self.lifecycle = Lifecycle::Running;
            proof {
                assert(self.model() =~~= (Model {
                    lifecycle: Lifecycle::Running,
                    ..old(self).model()
                }));
            }
            true
        } else {
            proof {
                assert(self.model() =~~= old(self).model());
            }
            false
        }
    }

    /// Run one animation tick with the byte row the embedding mapped from
    /// the latest frame. A running widget writes the row into the ring at
    /// the write offset, advances the offset, and asks the embedding to
    /// mirror the row into the texture, draw, notify the host and reschedule
    /// the next frame. A row of the wrong width is rejected whole — never
    /// partially written. A widget that is not running writes nothing and
    /// schedules nothing.
    pub fn render_tick(&mut self, row: &Vec<u8>) -> (r: Result<RenderStep, FrameError>)
        requires
            old(self).wf(),
        ensures
            final(self).wf(),
            final(self).model() == tick_model(old(self).model(), row@),
            old(self).model().lifecycle is Running && row@.len() == COLS ==> r
                == Result::<RenderStep, FrameError>::Ok((RenderStep {
                wrote: true,
                row_index: old(self).model().offset as usize,
                reschedule: true,
            })),
            old(self).model().lifecycle is Running && row@.len() != COLS ==> r
                == Result::<RenderStep, FrameError>::Err(FrameError::WrongLength),
            !(old(self).model().lifecycle is Running) ==> r
                == Result::<RenderStep, FrameError>::Ok((RenderStep {
                wrote: false,
                row_index: 0,
                reschedule: false,
            })),
    {
        if !matches!(self.lifecycle, Lifecycle::Running) {
            proof {
                assert(self.model() =~~= tick_model(old(self).model(), row@));
            }
            return Result::Ok(RenderStep { wrote: false, row_index: 0, reschedule: false });
        }
        if row.len() != COLS {
            proof {
                assert(self.model() =~~= tick_model(old(self).model(), row@));
            }
            return Result::Err(FrameError::WrongLength);
        }
        let row_index = self.ring.write_offset();
        self.ring.write_row(row);
        proof {
            assert(self.model() =~~= tick_model(old(self).model(), row@));
        }
        Result::Ok(RenderStep { wrote: true, row_index, reschedule: true })
    }

    /// Adopt a property change: an identical configuration asks for no
    /// action, a different one is adopted and asks for a re-render. The
    /// intake mode and any open connection stay as they are.
    pub fn change(&mut self, props: Props) -> (render: bool)
        requires
            old(self).wf(),
        ensures
            final(self).wf(),
            render == !(props.url@ == old(self).model().url && props.min_bits == old(
                self,
            ).model().min_bits && props.max_bits == old(self).model().max_bits),
            render ==> final(self).model() == (Model {
                url: props.url@,
                min_bits: props.min_bits,
                max_bits: props.max_bits,
                ..old(self).model()
            }),
            !render ==> final(self).model() == old(self).model(),
    {
        if props == self.props {
            proof {
                assert(self.model() =~~= old(self).model());
            }
            return false;
        }
        self.props = props;
        proof {
            assert(self.model() =~~= (Model {
                url: self.props.url@,
                min_bits: self.props.min_bits,
                max_bits: self.props.max_bits,
                ..old(self).model()
            }));
        }
        true
    }

    /// Tear the widget down: the lifecycle ends, so no further frame
    /// callback is scheduled, and the embedding must close the streaming
    /// connection exactly when `close` is returned true.
    pub fn destroy(&mut self) -> (close: bool)
        requires
            old(self).wf(),
        ensures
            final(self).wf(),
            close == old(self).model().connection_open,
            final(self).model() == destroyed_model(old(self).model()),
    {
        let close = self.connection_open;
        self.lifecycle = Lifecycle::Destroyed;
        self.connection_open = false;
        proof {
            assert(self.model() =~~= destroyed_model(old(self).model()));
        }
        close
    }

    /// The latest sample frame, as the bit patterns of its floats.
    pub fn latest_frame(&self) -> (r: &Vec<u32>)
        ensures
            r@ == self.model().latest,
    {
        &self.latest
    }

    /// The configured endpoint address.
    pub fn url(&self) -> (r: &String)
        ensures
            r@ == self.model().url,
    {
        &self.props.url
    }

    /// The bit pattern of the configured lower display bound.
    pub fn min_bits(&self) -> (r: u32)
        ensures
            r == self.model().min_bits,
    {
        self.props.min_bits
    }

    /// The bit pattern of the configured upper display bound.
    pub fn max_bits(&self) -> (r: u32)
        ensures
            r == self.model().max_bits,
    {
        self.props.max_bits
    }

    /// The ring's current write offset.
    pub fn write_offset(&self) -> (r: usize)
        ensures
            r == self.model().offset,
    {
        self.ring.write_offset()
    }

    /// The bytes of ring row `r`.
    pub fn ring_row(&self, r: usize) -> (b: &Vec<u8>)
        requires
            self.wf(),
            r < ROWS,
        ensures
            b@ == self.model().rows[r as int],
    {
        self.ring.row_bytes(r)
    }
}

/// A latest-frame slot of all-zero bit patterns.
fn zero_frame() -> (r: Vec<u32>)
    ensures
        r@.len() == FRAME_BINS,
        forall|j: int| 0 <= j < FRAME_BINS ==> r@[j] == 0u32,
{
    let mut v: Vec<u32> = Vec::new();
    let mut j: usize = 0;
    while j < FRAME_BINS
        invariant
            j <= FRAME_BINS,
            v@.len() == j,
            forall|t: int| 0 <= t < j ==> v@[t] == 0u32,
        decreases FRAME_BINS - j,
    {
        v.push(0u32);
        j = j + 1;
    }
    v
}

/// Last write wins: of the data events between two render ticks, only the
/// last well-sized message is held when the tick comes — whatever the slot
/// held and whatever arrived before it.
pub proof fn lemma_last_write_wins(m: Model, first: Option<Seq<u8>>, second: Seq<u8>)
    requires
        message_well_sized(second),
    ensures
        data_model(data_model(m, first), Option::Some(second)).latest == frame_words(second),
{
}

/// A quiet gap between data events changes nothing a tick can see: the tick
/// keeps the latest frame as it is, and rewrites only the row at the write
/// offset — every other row, the previously rendered one among them, is
/// untouched.
pub proof fn lemma_quiet_tick(m: Model, row: Seq<u8>)
    requires
        0 <= m.offset < m.rows.len(),
    ensures
        tick_model(m, row).latest == m.latest,
        forall|r: int|
            0 <= r < m.rows.len() && r != m.offset ==> tick_model(m, row).rows[r] == m.rows[r],
{
}

/// A torn-down widget holds no connection, writes no further row and
/// schedules no further frame callback: every tick after teardown leaves the
/// state exactly as teardown left it.
pub proof fn lemma_no_tick_after_destroy(m: Model, row: Seq<u8>)
    ensures
        destroyed_model(m).lifecycle is Destroyed,
        !destroyed_model(m).connection_open,
        tick_model(destroyed_model(m), row) == destroyed_model(m),
{
}

} // verus!
