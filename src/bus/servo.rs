//! Servos. The Wukong has eight servo ports driven through the I2C bus. Each
//! servo in use is configured with the largest angle it can travel; requested
//! angles are scaled from that range onto the controller's 0..=180 degrees.

use crate::bus::{write_cmd, write_op, BusOp, WuKongBus};
use vstd::prelude::*;

verus! {

/// Error during servo operation.
#[derive(Debug, Clone, Copy, PartialEq, Eq)]
pub enum Error {
    /// Given servo index out of range.
    InvalidIndex(u8),
    /// Given servo angle out of range.
    InvalidAngle(u16),
    /// Given servo is a repeat in configuration.
    RepeatServo(Servo),
    /// Given servo is accessed while unconfigured.
    UnconfiguredServo(Servo),
    /// Attempted to drive the given servo to the given angle, past its
    /// configured max angle.
    Overangle(Servo, ServoAngle, ServoAngle),
}

/// Servo angle in degrees (0..=359).
#[derive(Debug, Clone, Copy, PartialEq, Eq)]
pub struct ServoAngle(u16);

impl ServoAngle {
    #[verifier::type_invariant]
    spec fn inv(self) -> bool {
        self.0 < 360
    }

    /// The angle in degrees.
    pub closed spec fn degrees(self) -> nat {
        self.0 as nat
    }

    /// Make a new servo angle.
    ///
    /// # Errors
    ///
    /// Returns an error if `angle` is not a valid angle in degrees (0..=359).
    pub fn new(angle: u16) -> (r: Result<Self, Error>)
        ensures
            angle_from_raw(angle, r),
    {
        if angle >= 360 {
            return Err(Error::InvalidAngle(angle));
        }
        Ok(ServoAngle(angle))
    }

    /// The angle in degrees.
    pub fn value(self) -> (r: u16)
        ensures
            r == self.degrees(),
            r < 360,
    {
        proof {
            use_type_invariant(&self);
        }
        self.0
    }
}

/// What [`ServoAngle::new`] returns for `raw`: an angle of `raw` degrees
/// when `raw` is below 360, else an `InvalidAngle` error.
pub open spec fn angle_from_raw(raw: u16, r: Result<ServoAngle, Error>) -> bool {
    match r {
        Ok(a) => raw < 360 && a.degrees() == raw,
        Err(e) => raw >= 360 && e == Error::InvalidAngle(raw),
    }
}

/// Make a servo angle from a count of degrees, as [`ServoAngle::new`] does.
impl TryFrom<u16> for ServoAngle {
    type Error = Error;

    fn try_from(angle: u16) -> (r: Result<Self, Error>)
        ensures
            angle_from_raw(angle, r),
    {
        ServoAngle::new(angle)
    }
}

impl vstd::std_specs::convert::TryFromSpecImpl<u16> for ServoAngle {
    open spec fn obeys_try_from_spec() -> bool {
        true
    }

    closed spec fn try_from_spec(v: u16) -> Result<Self, Error> {
        if v < 360 {
            Ok(ServoAngle(v))
        } else {
            Err(Error::InvalidAngle(v))
        }
    }
}

impl From<ServoAngle> for u16 {
    fn from(angle: ServoAngle) -> (r: u16)
        ensures
            r == angle.degrees(),
    {
        angle.value()
    }
}

impl vstd::std_specs::convert::FromSpecImpl<ServoAngle> for u16 {
    open spec fn obeys_from_spec() -> bool {
        true
    }

    open spec fn from_spec(v: ServoAngle) -> u16 {
        v.degrees() as u16
    }
}

/// Servo to be controlled (numbered 1..=8).
#[derive(Debug, Clone, Copy, PartialEq, Eq)]
pub struct Servo(u8);

impl Servo {
    #[verifier::type_invariant]
    spec fn inv(self) -> bool {
        self.0 < 8
    }

    /// The zero-based index of the servo.
    pub closed spec fn index(self) -> nat {
        self.0 as nat
    }

    /// Make a new servo id.  Uses one-based numbering: the first servo is
    /// `1`, not `0`.
    ///
    /// # Errors
    ///
    /// Returns an error when given an out-of-range ID.
    pub fn new(servo: u8) -> (r: Result<Self, Error>)
        ensures
            servo_from_raw(servo, r),
    {
        if servo < 1 || servo > 8 {
            return Err(Error::InvalidIndex(servo));
        }
        Ok(Servo(servo - 1))
    }

    /// The zero-based index of the servo (0..=7).
    pub fn index_value(self) -> (r: u8)
        ensures
            r == self.index(),
            r < 8,
    {
        proof {
            use_type_invariant(&self);
        }
        self.0
    }

    /// The one-based number of the servo (1..=8), as given to [`Servo::new`].
    pub fn number(self) -> (r: u8)
        ensures
            r == self.index() + 1,
    {
        self.index_value() + 1
    }
}

/// What [`Servo::new`] returns for `raw`: the servo of index `raw - 1` when
/// `raw` is in 1..=8, else an `InvalidIndex` error.
pub open spec fn servo_from_raw(raw: u8, r: Result<Servo, Error>) -> bool {
    match r {
        Ok(s) => 1 <= raw <= 8 && s.index() == raw - 1,
        Err(e) => !(1 <= raw <= 8) && e == Error::InvalidIndex(raw),
    }
}

/// The one-based number of the servo, the byte it was made from.
impl From<Servo> for u8 {
    fn from(servo: Servo) -> (r: u8)
        ensures
            r == servo.index() + 1,
    {
        servo.number()
    }
}

impl vstd::std_specs::convert::FromSpecImpl<Servo> for u8 {
    open spec fn obeys_from_spec() -> bool {
        true
    }

    open spec fn from_spec(v: Servo) -> u8 {
        (v.index() + 1) as u8
    }
}

/// Make a servo id from its one-based number, as [`Servo::new`] does.
impl TryFrom<u8> for Servo {
    type Error = Error;

    fn try_from(servo: u8) -> (r: Result<Self, Error>)
        ensures
            servo_from_raw(servo, r),
    {
        Servo::new(servo)
    }
}

impl vstd::std_specs::convert::TryFromSpecImpl<u8> for Servo {
    open spec fn obeys_try_from_spec() -> bool {
        true
    }

    closed spec fn try_from_spec(v: u8) -> Result<Self, Error> {
        if 1 <= v <= 8 {
            Ok(Servo((v - 1) as u8))
        } else {
            Err(Error::InvalidIndex(v))
        }
    }
}

/// Configuration information for servos: which servos are in use, and the
/// max angle of each.
#[derive(Debug, Clone, Copy)]
pub struct ServoConfig {
    servo_max_angles: [Option<ServoAngle>; 8],
}

/// A servo table as a [`ServoConfig`] holds it: a slot for each of the eight
/// servos, and a max angle of 1..=359 degrees in each configured slot.
pub open spec fn valid_table(table: Seq<Option<ServoAngle>>) -> bool {
    &&& table.len() == 8
    &&& forall|i: int|
        0 <= i < 8 && (#[trigger] table[i]) is Some ==> 1 <= table[i]->Some_0.degrees() < 360
}

/// A servo table with no servo configured.
pub open spec fn unconfigured_table() -> Seq<Option<ServoAngle>> {
    Seq::new(8, |i: int| None)
}

/// The outcome of configuring `servo` with max angle `max` in `table`: a
/// max angle of 0 degrees and a servo that is already configured are refused.
pub open spec fn configure_step(
    table: Seq<Option<ServoAngle>>,
    servo: Servo,
    max: ServoAngle,
) -> Result<Seq<Option<ServoAngle>>, Error> {
    if max.degrees() < 1 {
        Err(Error::InvalidAngle(max.degrees() as u16))
    } else if table[servo.index() as int] is Some {
        Err(Error::RepeatServo(servo))
    } else {
        Ok(table.update(servo.index() as int, Some(max)))
    }
}

/// The table that configuring each pair of `items` in order yields, or the
/// error of the first pair that is refused.
pub open spec fn configured(items: Seq<(Servo, ServoAngle)>) -> Result<Seq<Option<ServoAngle>>, Error>
    decreases items.len(),
{
    if items.len() == 0 {
        Ok(unconfigured_table())
    } else {
        match configured(items.drop_last()) {
            Ok(table) => configure_step(table, items.last().0, items.last().1),
            Err(e) => Err(e),
        }
    }
}

/// The angle that `angle` degrees of a servo whose travel is `max` degrees
/// are on the controller's 0..=180 scale, rounded down.
pub open spec fn scaled_angle(angle: nat, max: nat) -> nat
    recommends
        max > 0,
{
    angle * 180 / max
}

/// What [`ServoConfig::scale`] returns for `servo` and `angle` over `table`.
pub open spec fn scale_result(
    table: Seq<Option<ServoAngle>>,
    servo: Servo,
    angle: ServoAngle,
) -> Result<nat, Error> {
    match table[servo.index() as int] {
        None => Err(Error::UnconfiguredServo(servo)),
        Some(max) => if angle.degrees() > max.degrees() {
            Err(Error::Overangle(servo, angle, max))
        } else {
            Ok(scaled_angle(angle.degrees(), max.degrees()))
        },
    }
}

impl View for ServoConfig {
    /// The max angle of each servo by index, `None` where it is unconfigured.
    type V = Seq<Option<ServoAngle>>;

    closed spec fn view(&self) -> Seq<Option<ServoAngle>> {
        self.servo_max_angles@
    }
}

impl ServoConfig {
    #[verifier::type_invariant]
    spec fn inv(self) -> bool {
        valid_table(self.servo_max_angles@)
    }

    /// Make a new servo config from a list of servos and their max angles.
    ///
    /// # Errors
    ///
    /// * Returns an error if a servo is repeated in the list.
    /// * Returns an error if a max angle is 0°.
    ///
    /// The error is that of the first pair refused.
    pub fn new(config: &[(Servo, ServoAngle)]) -> (r: Result<Self, Error>)
        ensures
            match r {
                Ok(c) => configured(config@) == Ok::<Seq<Option<ServoAngle>>, Error>(c@)
                    && valid_table(c@),
                Err(e) => configured(config@) == Err::<Seq<Option<ServoAngle>>, Error>(e),
            },
    {
        let mut result = ServoConfig { servo_max_angles: [None; 8] };
        assert(result@ =~= unconfigured_table());
        let mut i: usize = 0;
        while i < config.len()
            invariant
                i <= config@.len(),
                configured(config@.subrange(0, i as int)) == Ok::<Seq<Option<ServoAngle>>, Error>(result@),
            decreases config@.len() - i,
        {
            let (servo, max_angle) = config[i];
            proof {
                assert(config@.subrange(0, i + 1).drop_last() =~= config@.subrange(0, i as int));
            }
            match result.configure(servo, max_angle) {
                Ok(()) => {},
                Err(e) => {
                    proof {
                        lemma_configured_error_persists(config@, i + 1);
                    }
                    return Err(e);
                },
            }
            i += 1;
        }
        assert(config@.subrange(0, i as int) =~= config@);
        proof {
            use_type_invariant(&result);
        }
        Ok(result)
    }

    /// Configure `servo` with max angle `max_angle`.
    ///
    /// # Errors
    ///
    /// * Returns an error if `max_angle` is 0°.
    /// * Returns an error if `servo` is already configured; its first
    ///   configuration is kept.
    pub fn configure(&mut self, servo: Servo, max_angle: ServoAngle) -> (r: Result<(), Error>)
        ensures
            match configure_step(old(self)@, servo, max_angle) {
                Ok(table) => r is Ok && final(self)@ == table,
                Err(e) => r == Err::<(), Error>(e) && final(self)@ == old(self)@,
            },
            valid_table(final(self)@),
    {
        proof {
            use_type_invariant(&*self);
            use_type_invariant(&max_angle);
        }
        let index = servo.index_value() as usize;
        let max_value = max_angle.value();
        if max_value < 1 {
            return Err(Error::InvalidAngle(max_value));
        }
        if self.servo_max_angles[index].is_some() {
            return Err(Error::RepeatServo(servo));
        }
        self.servo_max_angles[index] = Some(max_angle);
        assert(self@ =~= old(self)@.update(index as int, Some(max_angle)));
        proof {
            use_type_invariant(&*self);
        }
        Ok(())
    }

    /// The angle on the controller's 0..=180 scale that drives `servo` to
    /// `angle` degrees of its configured travel.
    ///
    /// # Errors
    ///
    /// * Returns an error if `servo` is not configured.
    /// * Returns an error if `angle` is past the servo's max angle.
    pub fn scale(&self, servo: Servo, angle: ServoAngle) -> (r: Result<u8, Error>)
        ensures
            match scale_result(self@, servo, angle) {
                Ok(v) => r matches Ok(x) && x == v,
                Err(e) => r == Err::<u8, Error>(e),
            },
    {
        proof {
            use_type_invariant(self);
        }
        let index = servo.index_value() as usize;
        let max_angle = match self.servo_max_angles[index] {
            Some(max_angle) => max_angle,
            None => return Err(Error::UnconfiguredServo(servo)),
        };
        let max_value = max_angle.value() as u32;
        let angle_value = angle.value() as u32;
        if angle_value > max_value {
            return Err(Error::Overangle(servo, angle, max_angle));
        }
        proof {
            lemma_scaled_angle_bounds(angle_value as nat, max_value as nat);
        }
        let scaled = angle_value * 180 / max_value;
        Ok(scaled as u8)
    }
}

/// The write that sets `servo` to `scaled` on the controller's scale:
/// register `index + 3`, then the angle.
pub open spec fn servo_op(servo: Servo, scaled: nat) -> BusOp {
    write_op((servo.index() + 3) as u8, scaled as u8, 0, 0)
}

impl WuKongBus {
    /// Set the given `servo` to the given `angle`, taking into account the
    /// given `config`.
    ///
    /// # Errors
    ///
    /// Returns an error, and leaves nothing to perform:
    /// * if the given servo is not configured;
    /// * on an attempt to drive the given servo beyond its configured max
    ///   angle.
    pub fn set_servo_angle(&mut self, config: &ServoConfig, servo: Servo, angle: ServoAngle) -> (r:
        Result<(), Error>)
        ensures
            match scale_result(config@, servo, angle) {
                Ok(v) => r is Ok && final(self)@ == seq![servo_op(servo, v)],
                Err(e) => r == Err::<(), Error>(e) && final(self)@ == Seq::<BusOp>::empty(),
            },
    {
        let mut ops: Vec<BusOp> = Vec::new();
        let scaled = match config.scale(servo, angle) {
            Ok(scaled) => scaled,
            Err(e) => {
                self.start(ops);
                return Err(e);
            },
        };
        let servo_value = servo.index_value() + 3;
        ops.push(write_cmd(servo_value, scaled, 0, 0));
        assert(ops@ =~= seq![servo_op(servo, scaled as nat)]);
        self.start(ops);
        Ok(())
    }
}

/// For a configured servo, every angle up to its max angle scales into
/// 0..=180 on the controller; the max angle itself scales to exactly 180 and
/// 0 degrees to exactly 0.
pub proof fn scale_within_controller_range(
    table: Seq<Option<ServoAngle>>,
    servo: Servo,
    angle: ServoAngle,
)
    requires
        valid_table(table),
        servo.index() < 8,
        table[servo.index() as int] is Some,
        angle.degrees() <= table[servo.index() as int]->Some_0.degrees(),
    ensures
        scale_result(table, servo, angle) matches Ok(v) && v <= 180,
        angle.degrees() == table[servo.index() as int]->Some_0.degrees() ==> scale_result(
            table,
            servo,
            angle,
        ) == Ok::<nat, Error>(180),
        angle.degrees() == 0 ==> scale_result(table, servo, angle) == Ok::<nat, Error>(0),
{
    let max = table[servo.index() as int]->Some_0.degrees();
    lemma_scaled_angle_bounds(angle.degrees(), max);
}

/// Configuring a servo a second time, with a max angle that is not 0°, is
/// refused with `RepeatServo`; the first configuration is what the table
/// holds.
pub proof fn configure_twice_refused(
    table: Seq<Option<ServoAngle>>,
    servo: Servo,
    first: ServoAngle,
    second: ServoAngle,
)
    requires
        table.len() == 8,
        servo.index() < 8,
        configure_step(table, servo, first) is Ok,
        second.degrees() >= 1,
    ensures
        configure_step(table, servo, first)->Ok_0[servo.index() as int] == Some(first),
        configure_step(configure_step(table, servo, first)->Ok_0, servo, second) == Err::<
            Seq<Option<ServoAngle>>,
            Error,
        >(Error::RepeatServo(servo)),
{
}

/// Configuring a list of servos that names a servo again after it was
/// configured, with a max angle that is not 0°, is refused with
/// `RepeatServo` whatever follows in the list; the list before the repeat
/// configures that servo with its first max angle.
pub proof fn configure_list_repeat_refused(
    p: Seq<(Servo, ServoAngle)>,
    q: Seq<(Servo, ServoAngle)>,
    s: Servo,
    a1: ServoAngle,
    a2: ServoAngle,
)
    requires
        forall|k: int| 0 <= k < p.len() ==> (#[trigger] p[k]).0.index() < 8,
        s.index() < 8,
        configured(p) is Ok,
        p.contains((s, a1)),
        a2.degrees() >= 1,
    ensures
        configured(p)->Ok_0[s.index() as int] == Some(a1),
        configured(p.push((s, a2)) + q) == Err::<Seq<Option<ServoAngle>>, Error>(
            Error::RepeatServo(s),
        ),
{
    lemma_configured_keeps(p, s, a1);
    let items = p.push((s, a2)) + q;
    assert(items.subrange(0, p.len() + 1 as int) =~= p.push((s, a2)));
    assert(p.push((s, a2)).drop_last() =~= p);
    lemma_configured_error_persists(items, p.len() + 1 as int);
}

/// A list that configures without refusal yields a table of eight slots, and
/// each servo it names keeps the max angle it was named with.
proof fn lemma_configured_keeps(p: Seq<(Servo, ServoAngle)>, s: Servo, a: ServoAngle)
    requires
        forall|k: int| 0 <= k < p.len() ==> (#[trigger] p[k]).0.index() < 8,
        s.index() < 8,
        configured(p) is Ok,
    ensures
        configured(p)->Ok_0.len() == 8,
        p.contains((s, a)) ==> configured(p)->Ok_0[s.index() as int] == Some(a),
    decreases p.len(),
{
    if p.len() == 0 {
        assert(!p.contains((s, a)));
    } else {
        let rest = p.drop_last();
        let (s2, a2) = p.last();
        assert(p[p.len() - 1].0.index() < 8);
        assert forall|k: int| 0 <= k < rest.len() implies (#[trigger] rest[k]).0.index() < 8 by {
            assert(rest[k] == p[k]);
        }
        lemma_configured_keeps(rest, s, a);
        if p.contains((s, a)) {
            let k = choose|k: int| 0 <= k < p.len() && p[k] == (s, a);
            if k < p.len() - 1 {
                assert(rest[k] == p[k]);
                assert(rest.contains((s, a)));
            }
        }
    }
}

/// Numbering a servo by a byte and reading its number back gives that byte
/// for every byte in 1..=8; any other byte is refused and names no servo.
pub proof fn servo_number_round_trip(raw: u8, r: Result<Servo, Error>)
    requires
        servo_from_raw(raw, r),
    ensures
        1 <= raw <= 8 ==> (r matches Ok(s) && s.index() + 1 == raw
            && <u8 as vstd::std_specs::convert::FromSpec<Servo>>::from_spec(s) == raw),
        !(1 <= raw <= 8) ==> r is Err,
{
}

/// Making an angle of a byte count of degrees and reading it back gives that
/// count for every count in 0..=359; any other count is refused.
pub proof fn angle_round_trip(raw: u16, r: Result<ServoAngle, Error>)
    requires
        angle_from_raw(raw, r),
    ensures
        raw < 360 ==> (r matches Ok(a) && a.degrees() == raw),
        raw >= 360 ==> r is Err,
{
}

/// Once a prefix of `items` is refused, every longer prefix is refused with
/// the same error.
proof fn lemma_configured_error_persists(items: Seq<(Servo, ServoAngle)>, n: int)
    requires
        0 <= n <= items.len(),
        configured(items.subrange(0, n)) is Err,
    ensures
        configured(items) == configured(items.subrange(0, n)),
    decreases items.len() - n,
{
    if n < items.len() {
        assert(items.subrange(0, n + 1).drop_last() =~= items.subrange(0, n));
        lemma_configured_error_persists(items, n + 1);
    } else {
        assert(items.subrange(0, n) =~= items);
    }
}

/// Scaling any angle within a servo's travel gives at most 180; the max
/// angle itself gives exactly 180 and 0 degrees gives 0.
pub proof fn lemma_scaled_angle_bounds(angle: nat, max: nat)
    requires
        1 <= max,
        angle <= max,
    ensures
        scaled_angle(angle, max) <= 180,
        scaled_angle(max, max) == 180,
        scaled_angle(0, max) == 0,
{
    assert(angle * 180 <= max * 180) by (nonlinear_arith)
        requires
            angle <= max,
    ;
    assert(angle * 180 / max <= max * 180 / max) by (nonlinear_arith)
        requires
            angle * 180 <= max * 180,
            max >= 1,
    ;
    assert(max * 180 / max == 180) by (nonlinear_arith)
        requires
            max >= 1,
    ;
}

} // verus!
