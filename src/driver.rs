//! The driver instance: pixel writes into the drawing memory, and the
//! start / busy / complete protocol of frame transmission.
use vstd::prelude::*;
use crate::color::{
    ColorOrder, wire_word, rgb_value, rgb_channels, bytes_of, packed, encode_color, decode_color,
    pack_channels, lemma_color_round_trip,
};
use crate::config::{TypeRate, config_byte, pack_config};

verus! {

/// Number of parallel output lines driven at once.
pub const STRING_COUNT: u32 = 8;

/// What a caller did wrong; none of these is retried.
#[derive(Debug, Clone, Copy, PartialEq, Eq, Structural)]
pub enum DriverError {
    /// Zero LEDs, buffers too small, or the hardware already bound.
    InvalidConfiguration,
    /// An operation before `begin`.
    UninitializedUse,
    /// A pixel index not below the LED count.
    IndexOutOfRange,
}

/// What a call of `show` did.
#[derive(Debug, Clone, Copy, PartialEq, Eq, Structural)]
pub enum ShowStep {
    /// The drawing memory was committed and its transmission started.
    Started,
    /// A previous frame is still on the wire: nothing was done, and the
    /// caller waits for its completion before calling again.
    PriorInFlight,
}

/// The binding to the transmission engine. A process holds one, and at most
/// one driver instance is ever bound through it.
pub struct HardwareSlot {
    bound: bool,
}

impl HardwareSlot {
    /// Whether a driver instance holds the engine.
    pub closed spec fn is_bound(&self) -> bool {
        self.bound
    }

    /// A binding that no driver holds yet.
    pub fn new() -> (s: HardwareSlot)
        ensures
            !s.is_bound(),
    {
        HardwareSlot { bound: false }
    }
}

/// The display memory after committing the first `n` words of the drawing memory.
pub open spec fn committed(display: Seq<u32>, drawing: Seq<u32>, n: nat) -> Seq<u32> {
    Seq::new(display.len(), |i: int| if i < n { drawing[i] } else { display[i] })
}

/// A driver for eight parallel LED strings with double-buffered pixel memory.
pub struct OctoWS2811 {
    max: u32,
    order: ColorOrder,
    rate: TypeRate,
    config: u8,
    display: Vec<u32>,
    drawing: Vec<u32>,
    begun: bool,
    transmitting: bool,
}

impl OctoWS2811 {
    /// Number of addressable LEDs over all strings.
    pub closed spec fn total_leds(&self) -> nat {
        self.max as nat
    }

    /// Channel order of the strings.
    pub closed spec fn order(&self) -> ColorOrder {
        self.order
    }

    /// Bit rate and chip type of the strings.
    pub closed spec fn timing(&self) -> TypeRate {
        self.rate
    }

    /// The configuration byte handed to the engine.
    pub closed spec fn configuration(&self) -> u8 {
        self.config
    }

    /// Whether `begin` has been called.
    pub closed spec fn is_begun(&self) -> bool {
        self.begun
    }

    /// Whether a frame is on the wire.
    pub closed spec fn is_transmitting(&self) -> bool {
        self.transmitting
    }

    /// The memory that pixel writes go to.
    pub closed spec fn drawing_memory(&self) -> Seq<u32> {
        self.drawing@
    }

    /// The memory the engine reads a frame from.
    pub closed spec fn display_memory(&self) -> Seq<u32> {
        self.display@
    }

    /// Both memories hold every LED, the configuration byte matches the
    /// order and timing, and nothing is on the wire before `begin`.
    pub closed spec fn wf(&self) -> bool {
        &&& self.max > 0
        &&& self.max % STRING_COUNT == 0
        &&& self.drawing@.len() >= self.max
        &&& self.display@.len() >= self.max
        &&& self.config == config_byte(self.order, self.rate)
        &&& self.transmitting ==> self.begun
    }

    /// The parts fixed at construction are the same in both.
    pub open spec fn same_setup(&self, other: &OctoWS2811) -> bool {
        &&& self.total_leds() == other.total_leds()
        &&& self.order() == other.order()
        &&& self.timing() == other.timing()
        &&& self.configuration() == other.configuration()
    }

    /// What a pixel access by index gives before any memory is touched.
    pub open spec fn access_result(&self, led: u32) -> Result<(), DriverError> {
        if !self.is_begun() {
            Err(DriverError::UninitializedUse)
        } else if led >= self.total_leds() {
            Err(DriverError::IndexOutOfRange)
        } else {
            Ok(())
        }
    }

    /// What `get_pixel(led)` returns.
    pub open spec fn pixel_result(&self, led: u32) -> Result<i32, DriverError> {
        match self.access_result(led) {
            Ok(_) => Ok(rgb_value(self.order(), self.drawing_memory()[led as int]) as i32),
            Err(e) => Err(e),
        }
    }

    /// What `busy()` returns.
    pub open spec fn busy_result(&self) -> Result<bool, DriverError> {
        if !self.is_begun() {
            Err(DriverError::UninitializedUse)
        } else {
            Ok(self.is_transmitting())
        }
    }

    /// What `show()` returns.
    pub open spec fn show_result(&self) -> Result<ShowStep, DriverError> {
        if !self.is_begun() {
            Err(DriverError::UninitializedUse)
        } else if self.is_transmitting() {
            Ok(ShowStep::PriorInFlight)
        } else {
            Ok(ShowStep::Started)
        }
    }

    /// `self` is `before` with the engine initialized and idle.
    pub open spec fn began_from(&self, before: &OctoWS2811) -> bool {
        &&& self.is_begun()
        &&& !self.is_transmitting()
        &&& self.same_setup(before)
        &&& self.drawing_memory() == before.drawing_memory()
        &&& self.display_memory() == before.display_memory()
    }

    /// `self` is `before` with the word for `(red, green, blue)` stored for LED `led`.
    pub open spec fn wrote_pixel(&self, before: &OctoWS2811, led: u32, red: u8, green: u8, blue: u8) -> bool {
        &&& self.drawing_memory() == before.drawing_memory().update(
            led as int,
            wire_word(before.order(), red, green, blue),
        )
        &&& self.display_memory() == before.display_memory()
        &&& self.same_setup(before)
        &&& self.is_begun() == before.is_begun()
        &&& self.is_transmitting() == before.is_transmitting()
    }

    /// `self` is `before` with its drawing memory committed and on the wire.
    pub open spec fn started_from(&self, before: &OctoWS2811) -> bool {
        &&& self.is_begun()
        &&& self.is_transmitting()
        &&& self.display_memory() == committed(
            before.display_memory(),
            before.drawing_memory(),
            before.total_leds(),
        )
        &&& self.drawing_memory() == before.drawing_memory()
        &&& self.same_setup(before)
    }

    /// `self` is `before` with the frame on the wire complete.
    pub open spec fn completed_from(&self, before: &OctoWS2811) -> bool {
        &&& !self.is_transmitting()
        &&& self.is_begun() == before.is_begun()
        &&& self.same_setup(before)
        &&& self.drawing_memory() == before.drawing_memory()
        &&& self.display_memory() == before.display_memory()
    }

    /// Binds a driver to the engine. `display_memory` and `drawing_memory`
    /// each hold at least `leds_per_string * 8` words; the driver keeps them
    /// as they are.
    pub fn new(
        slot: &mut HardwareSlot,
        leds_per_string: u32,
        display_memory: Vec<u32>,
        drawing_memory: Vec<u32>,
        color_order: ColorOrder,
        type_rate: TypeRate,
    ) -> (r: Result<OctoWS2811, DriverError>)
        ensures
            ({
                let total = leds_per_string as int * STRING_COUNT as int;
                let valid = !old(slot).is_bound() && leds_per_string > 0 && total <= u32::MAX
                    && display_memory@.len() >= total && drawing_memory@.len() >= total;
                match r {
                    Ok(d) => {
                        &&& valid
                        &&& final(slot).is_bound()
                        &&& d.wf()
                        &&& d.total_leds() == total
                        &&& d.order() == color_order
                        &&& d.timing() == type_rate
                        &&& d.configuration() == config_byte(color_order, type_rate)
                        &&& !d.is_begun()
                        &&& !d.is_transmitting()
                        &&& d.drawing_memory() == drawing_memory@
                        &&& d.display_memory() == display_memory@
                    },
                    Err(e) => {
                        &&& !valid
                        &&& e == DriverError::InvalidConfiguration
                        &&& *final(slot) == *old(slot)
                    },
                }
            }),
    {
        if slot.bound || leds_per_string == 0 || leds_per_string > u32::MAX / STRING_COUNT {
            return Err(DriverError::InvalidConfiguration);
        }
        let max: u32 = leds_per_string * STRING_COUNT;
        if display_memory.len() < max as usize || drawing_memory.len() < max as usize {
            return Err(DriverError::InvalidConfiguration);
        }
        slot.bound = true;
        Ok(OctoWS2811 {
            max,
            order: color_order,
            rate: type_rate,
            config: pack_config(color_order, type_rate),
            display: display_memory,
            drawing: drawing_memory,
            begun: false,
            transmitting: false,
        })
    }
    /// Initializes the engine. Called once, before any pixel or show
    /// operation; a second call changes nothing and fails.
    pub fn begin(&mut self) -> (r: Result<(), DriverError>)
        requires
            old(self).wf(),
        ensures
            final(self).wf(),
            old(self).is_begun() <==> r == Err::<(), DriverError>(DriverError::InvalidConfiguration),
            old(self).is_begun() ==> *final(self) == *old(self),
            !old(self).is_begun() ==> r is Ok && final(self).began_from(old(self)),
    {
        if self.begun {
            return Err(DriverError::InvalidConfiguration);
        }
        self.begun = true;
        self.transmitting = false;
        Ok(())
    }

    /// Writes the color `(red, green, blue)` of LED `led` into the drawing
    /// memory, in wire order. The display memory is never touched, so this is
    /// safe while a frame is on the wire.
    pub fn set_pixel(&mut self, led: u32, red: u8, green: u8, blue: u8) -> (r: Result<(), DriverError>)
        requires
            old(self).wf(),
        ensures
            final(self).wf(),
            r == old(self).access_result(led),
            r is Err ==> *final(self) == *old(self),
            r is Ok ==> final(self).wrote_pixel(old(self), led, red, green, blue),
    {
        if !self.begun {
            return Err(DriverError::UninitializedUse);
        }
        if led >= self.max {
            return Err(DriverError::IndexOutOfRange);
        }
        let word = encode_color(self.order, red, green, blue);
        self.drawing.set(led as usize, word);
        Ok(())
    }

    /// The 24-bit color `0xRRGGBB` last written for LED `led`, read back from
    /// the drawing memory. The value is never negative.
    pub fn get_pixel(&self, led: u32) -> (r: Result<i32, DriverError>)
        requires
            self.wf(),
        ensures
            r == self.pixel_result(led),
            r matches Ok(v) ==> 0 <= v < 0x100_0000,
    {
        if !self.begun {
            return Err(DriverError::UninitializedUse);
        }
        if led >= self.max {
            return Err(DriverError::IndexOutOfRange);
        }
        let c = decode_color(self.order, self.drawing[led as usize]);
        let v = pack_channels(c);
        Ok(v as i32)
    }

    /// Starts a frame. When the engine is idle, the drawing memory is
    /// committed as the new display memory and its transmission starts; the
    /// call returns at once. While a previous frame is still on the wire,
    /// nothing is started or dropped: the caller waits for `busy` to turn
    /// false and calls again, so frames go out one at a time and in order.
    pub fn show(&mut self) -> (r: Result<ShowStep, DriverError>)
        requires
            old(self).wf(),
        ensures
            final(self).wf(),
            r == old(self).show_result(),
            r == Ok::<ShowStep, DriverError>(ShowStep::Started) ==> final(self).started_from(old(self)),
            r != Ok::<ShowStep, DriverError>(ShowStep::Started) ==> *final(self) == *old(self),
    {
        if !self.begun {
            return Err(DriverError::UninitializedUse);
        }
        if self.transmitting {
            return Ok(ShowStep::PriorInFlight);
        }
        let ghost display0 = self.display@;
        let n = self.max as usize;
        let mut i: usize = 0;
        while i < n
            invariant
                n == self.max,
                self.max == old(self).max,
                self.order == old(self).order,
                self.rate == old(self).rate,
                self.config == old(self).config,
                self.begun == old(self).begun,
                self.transmitting == old(self).transmitting,
                self.drawing@ == old(self).drawing@,
                display0 == old(self).display@,
                old(self).wf(),
                self.display@.len() == display0.len(),
                n <= display0.len(),
                i <= n,
                forall|k: int| 0 <= k < i ==> self.display@[k] == self.drawing@[k],
                forall|k: int| i <= k < display0.len() ==> self.display@[k] == display0[k],
            decreases n - i,
        {
            let w = self.drawing[i];
            self.display.set(i, w);
            i = i + 1;
        }
        self.transmitting = true;
        assert(self.display@ =~= committed(display0, self.drawing@, self.max as nat));
        Ok(ShowStep::Started)
    }

    /// Whether a frame is still on the wire. Never blocks.
    pub fn busy(&self) -> (r: Result<bool, DriverError>)
        requires
            self.wf(),
        ensures
            r == self.busy_result(),
    {
        if !self.begun {
            return Err(DriverError::UninitializedUse);
        }
        Ok(self.transmitting)
    }

    /// The engine reports that the frame on the wire is complete; the display
    /// memory is free again.
    pub fn transfer_complete(&mut self)
        requires
            old(self).wf(),
        ensures
            final(self).wf(),
            final(self).completed_from(old(self)),
    {
        self.transmitting = false;
    }

    /// Number of addressable LEDs: eight times the LEDs per string.
    pub fn max(&self) -> (r: u32)
        ensures
            r == self.total_leds(),
    {
        self.max
    }

    /// The configuration byte handed to the engine.
    pub fn config(&self) -> (r: u8)
        ensures
            r == self.configuration(),
    {
        self.config
    }
}

/// A pixel written with `set_pixel` reads back with `get_pixel`, with no
/// `show` between: the stored word decodes under the driver's color order to
/// `(red, green, blue)`, and the value read is `0xRRGGBB`.
pub proof fn lemma_set_then_get(before: OctoWS2811, after: OctoWS2811, led: u32, red: u8, green: u8, blue: u8)
    requires
        before.wf(),
        before.is_begun(),
        led < before.total_leds(),
        after.wrote_pixel(&before, led, red, green, blue),
    ensures
        rgb_channels(after.order(), bytes_of(after.drawing_memory()[led as int])) == (red, green, blue),
        after.pixel_result(led) == Ok::<i32, DriverError>(packed((red, green, blue)) as i32),
{
    lemma_color_round_trip(before.order(), red, green, blue);
}

/// An index not below the LED count is refused by `set_pixel` and by
/// `get_pixel` with `IndexOutOfRange` (and `set_pixel` then changes nothing).
pub proof fn lemma_index_out_of_range(d: OctoWS2811, led: u32)
    requires
        d.wf(),
        d.is_begun(),
        led >= d.total_leds(),
    ensures
        d.access_result(led) == Err::<(), DriverError>(DriverError::IndexOutOfRange),
        d.pixel_result(led) == Err::<i32, DriverError>(DriverError::IndexOutOfRange),
{
}

/// Right after `begin`, and before any `show`, the driver is not busy.
pub proof fn lemma_idle_after_begin(before: OctoWS2811, after: OctoWS2811)
    requires
        after.began_from(&before),
    ensures
        after.busy_result() == Ok::<bool, DriverError>(false),
        after.show_result() == Ok::<ShowStep, DriverError>(ShowStep::Started),
{
}

/// While a frame is on the wire, `show` starts nothing.
pub proof fn lemma_no_start_while_busy(d: OctoWS2811)
    requires
        d.busy_result() == Ok::<bool, DriverError>(true),
    ensures
        d.show_result() == Ok::<ShowStep, DriverError>(ShowStep::PriorInFlight),
{
}

/// Frames go out one at a time: after a `show` that starts a frame the driver
/// is busy and a further `show` starts nothing; once the engine reports
/// completion the driver is idle, the committed frame is still the one drawn
/// before the `show`, and the next `show` starts.
pub proof fn lemma_frames_serialized(d0: OctoWS2811, d1: OctoWS2811, d2: OctoWS2811)
    requires
        d0.wf(),
        d0.show_result() == Ok::<ShowStep, DriverError>(ShowStep::Started),
        d1.started_from(&d0),
        d2.completed_from(&d1),
    ensures
        d1.busy_result() == Ok::<bool, DriverError>(true),
        d1.show_result() == Ok::<ShowStep, DriverError>(ShowStep::PriorInFlight),
        d2.busy_result() == Ok::<bool, DriverError>(false),
        d2.show_result() == Ok::<ShowStep, DriverError>(ShowStep::Started),
        forall|i: int|
            0 <= i < d0.total_leds() ==> d2.display_memory()[i] == d0.drawing_memory()[i],
{
    assert(d0.display_memory().len() >= d0.total_leds());
}

} // verus!
