//! GPIO method dispatch.
//!
//! One request line becomes at most one response line in three steps:
//! [`begin_line`] parses the envelope and decides whether the line is
//! answered at once (parse error, invalid request, unknown method), ignored
//! (a notification), or is a call of a known method whose params are to be
//! typed; [`answer_call`] runs a typed request against a [`GpioBackend`] and a
//! [`LedBackend`]; [`crate::rpc::render`] prints the reply.
//!
//! The host build uses [`MockGpio`] and [`MockLed`], in-memory backends whose
//! behaviour is specified exactly; [`EspGpio`] holds the decisions of the
//! device backend.

use std::collections::HashMap;

use vstd::prelude::*;

use crate::protocol::{PinMode, Request};
use crate::rpc::{
    error_json, render, reply_json,
    invalid_params_view, invalid_request_view, method_not_found_view, message_of, parse_error_view,
    parse_message, IdView, Message, MessageView, Reply, ReplyView, ResultValue, RpcError,
    RpcErrorView, RpcId,
};

verus! {

broadcast use vstd::std_specs::hash::group_hash_axioms;

/// Custom server-error code for backend/hardware failures.
pub const SERVER_ERROR: i64 = -32000;

/// Highest GPIO number on the ESP32-S3 (GPIO0..=GPIO48).
pub const MAX_PIN: u8 = 48;

/// The decimal digit character for `d < 10`.
pub open spec fn digit_char(d: nat) -> char {
    (d + 48) as char
}

/// The decimal text of a natural number.
pub open spec fn decimal(n: nat) -> Seq<char>
    decreases n,
{
    if n < 10 {
        seq![digit_char(n)]
    } else {
        decimal(n / 10).push(digit_char(n % 10))
    }
}

/// The decimal text of an integer, with a leading `-` when negative.
pub open spec fn signed_decimal(n: int) -> Seq<char> {
    if n < 0 {
        seq!['-'] + decimal((-n) as nat)
    } else {
        decimal(n as nat)
    }
}

/// The decimal text of a natural number, most significant digit first.
fn natural_text(n: u64) -> (s: String)
    ensures
        s@ == decimal(n as nat),
    decreases n,
{
    let digits = "0123456789";
    proof {
        reveal_strlit("0123456789");
    }
    let d = (n % 10) as usize;
    let last = digits.substring_char(d, d + 1);
    assert(last@ =~= seq![digit_char(d as nat)]);
    if n < 10 {
        String::from_str(last)
    } else {
        let mut s = natural_text(n / 10);
        s.append(last);
        s
    }
}

/// The decimal text of an integer, with a leading `-` when negative (as
/// integers print through `Display`).
fn int_text(n: i64) -> (s: String)
    ensures
        s@ == signed_decimal(n as int),
{
    if n < 0 {
        let magnitude = (0i128 - (n as i128)) as u64;
        let mut s = String::from_str("-");
        proof {
            reveal_strlit("-");
        }
        let digits = natural_text(magnitude);
        s.append(digits.as_str());
        assert(s@ =~= seq!['-'] + decimal((-n) as nat));
        s
    } else {
        natural_text(n as u64)
    }
}

/// A GPIO operation failure.
#[derive(Debug, PartialEq, Eq)]
pub enum GpioError {
    /// Pin number outside the controllable range: maps to `-32602`.
    InvalidPin(u8),
    /// Backend/hardware failure: maps to `-32000`.
    Backend(String),
}

/// Abstract GPIO failure.
pub enum GpioErrorView {
    InvalidPin(u8),
    Backend(Seq<char>),
}

impl View for GpioError {
    type V = GpioErrorView;

    open spec fn view(&self) -> GpioErrorView {
        match self {
            GpioError::InvalidPin(p) => GpioErrorView::InvalidPin(*p),
            GpioError::Backend(m) => GpioErrorView::Backend(m@),
        }
    }
}

/// The abstract form of a backend result.
pub open spec fn result_view<T>(r: Result<T, GpioError>) -> Result<T, GpioErrorView> {
    match r {
        Ok(v) => Ok(v),
        Err(e) => Err(e@),
    }
}

/// The error object a GPIO failure is answered with.
pub open spec fn rpc_error_of(e: GpioErrorView) -> RpcErrorView {
    match e {
        GpioErrorView::InvalidPin(pin) => RpcErrorView {
            code: -32602i64,
            message: "invalid pin: "@ + decimal(pin as nat),
        },
        GpioErrorView::Backend(msg) => RpcErrorView { code: SERVER_ERROR, message: msg },
    }
}

impl GpioError {
    /// Map this failure to a JSON-RPC error object.
    pub fn to_rpc_error(&self) -> (e: RpcError)
        ensures
            e@ == rpc_error_of(self@),
    {
        match self {
            GpioError::InvalidPin(pin) => {
                let mut message = String::from_str("invalid pin: ");
                let digits = int_text(*pin as i64);
                message.append(digits.as_str());
                RpcError { code: -32602, message }
            },
            GpioError::Backend(msg) => RpcError { code: SERVER_ERROR, message: msg.clone() },
        }
    }
}

/// The pin operations the dispatcher needs.
///
/// Each operation is described by a relation between the backend before,
/// the arguments, the backend after and the result; an implementation says
/// which outcomes it can have by defining the relation. The in-memory
/// backend defines them exactly; an implementation outside this library is
/// trusted to keep the relation it defines.
pub trait GpioBackend: Sized {
    /// The outcomes `config` can have.
    spec fn obeys_config(before: Self, pin: u8, mode: PinMode, after: Self, r: Result<(), GpioErrorView>) -> bool;

    /// The outcomes `write` can have.
    spec fn obeys_write(before: Self, pin: u8, level: u8, after: Self, r: Result<(), GpioErrorView>) -> bool;

    /// The outcomes `read` can have.
    spec fn obeys_read(before: Self, pin: u8, after: Self, r: Result<u8, GpioErrorView>) -> bool;

    fn config(&mut self, pin: u8, mode: PinMode) -> (r: Result<(), GpioError>)
        ensures
            Self::obeys_config(*old(self), pin, mode, *final(self), result_view(r)),
    ;

    fn write(&mut self, pin: u8, level: u8) -> (r: Result<(), GpioError>)
        ensures
            Self::obeys_write(*old(self), pin, level, *final(self), result_view(r)),
    ;

    fn read(&mut self, pin: u8) -> (r: Result<u8, GpioError>)
        ensures
            Self::obeys_read(*old(self), pin, *final(self), result_view(r)),
    ;
}

/// The on-board RGB LED operation, described like [`GpioBackend`]'s.
pub trait LedBackend: Sized {
    /// The outcomes `set_rgb` can have.
    spec fn obeys_set_rgb(before: Self, r: u8, g: u8, b: u8, after: Self, res: Result<(), GpioErrorView>) -> bool;

    fn set_rgb(&mut self, r: u8, g: u8, b: u8) -> (res: Result<(), GpioError>)
        ensures
            Self::obeys_set_rgb(*old(self), r, g, b, *final(self), result_view(res)),
    ;
}

/// Whether a pin number is in the controllable range.
pub open spec fn pin_ok(pin: u8) -> bool {
    pin <= MAX_PIN
}

/// `Ok` for a pin in range, else `InvalidPin`.
pub fn check_pin(pin: u8) -> (r: Result<(), GpioError>)
    ensures
        result_view(r) == (if pin_ok(pin) {
            Ok::<(), GpioErrorView>(())
        } else {
            Err(GpioErrorView::InvalidPin(pin))
        }),
        r is Ok <==> pin <= 48,
{
    if pin <= MAX_PIN {
        Ok(())
    } else {
        Err(GpioError::InvalidPin(pin))
    }
}

/// The failure of a write or read on a pin that was never configured.
pub open spec fn not_configured() -> GpioErrorView {
    GpioErrorView::Backend("pin not configured"@)
}

/// The level a write stores: 1 for any non-zero level, else 0.
pub open spec fn binary_level(level: u8) -> u8 {
    if level != 0 {
        1
    } else {
        0
    }
}

/// Abstract mock GPIO: the stored level and the last configured mode per pin.
pub struct MockGpioView {
    pub levels: Map<u8, u8>,
    pub modes: Map<u8, PinMode>,
}

/// Configuring a pin: records its mode.
pub open spec fn mock_config(g: MockGpioView, pin: u8, mode: PinMode) -> (MockGpioView, Result<(), GpioErrorView>) {
    if !pin_ok(pin) {
        (g, Err(GpioErrorView::InvalidPin(pin)))
    } else {
        (MockGpioView { levels: g.levels, modes: g.modes.insert(pin, mode) }, Ok(()))
    }
}

/// Writing a configured pin: stores the level as 0 or 1.
pub open spec fn mock_write(g: MockGpioView, pin: u8, level: u8) -> (MockGpioView, Result<(), GpioErrorView>) {
    if !pin_ok(pin) {
        (g, Err(GpioErrorView::InvalidPin(pin)))
    } else if !g.modes.contains_key(pin) {
        (g, Err(not_configured()))
    } else {
        (MockGpioView { levels: g.levels.insert(pin, binary_level(level)), modes: g.modes }, Ok(()))
    }
}

/// Reading a configured pin: its stored level, 0 if never written.
pub open spec fn mock_read(g: MockGpioView, pin: u8) -> Result<u8, GpioErrorView> {
    if !pin_ok(pin) {
        Err(GpioErrorView::InvalidPin(pin))
    } else if !g.modes.contains_key(pin) {
        Err(not_configured())
    } else if g.levels.contains_key(pin) {
        Ok(g.levels[pin])
    } else {
        Ok(0)
    }
}

/// In-memory GPIO backend for host builds and tests: a pin-to-level map plus
/// the last configured mode per pin.
pub struct MockGpio {
    levels: HashMap<u8, u8>,
    modes: HashMap<u8, PinMode>,
}

impl View for MockGpio {
    type V = MockGpioView;

    closed spec fn view(&self) -> MockGpioView {
        MockGpioView { levels: self.levels@, modes: self.modes@ }
    }
}

impl MockGpio {
    /// Every stored level is 0 or 1.
    #[verifier::type_invariant]
    spec fn stores_binary_levels(self) -> bool {
        levels_are_binary(self@)
    }

    /// No pin configured, no level stored.
    pub fn new() -> (g: Self)
        ensures
            g@.levels == Map::<u8, u8>::empty(),
            g@.modes == Map::<u8, PinMode>::empty(),
    {
        MockGpio { levels: HashMap::new(), modes: HashMap::new() }
    }

    /// The mode last set for `pin`, if any.
    pub fn mode_of(&self, pin: u8) -> (m: Option<PinMode>)
        ensures
            m == (if self@.modes.contains_key(pin) {
                Some(self@.modes[pin])
            } else {
                None
            }),
    {
        match self.modes.get(&pin) {
            Some(mode) => Some(*mode),
            None => None,
        }
    }
}

impl Default for MockGpio {
    fn default() -> (g: Self)
        ensures
            g@.levels == Map::<u8, u8>::empty(),
            g@.modes == Map::<u8, PinMode>::empty(),
    {
        Self::new()
    }
}

impl GpioBackend for MockGpio {
    open spec fn obeys_config(before: Self, pin: u8, mode: PinMode, after: Self, r: Result<(), GpioErrorView>) -> bool {
        (after@, r) == mock_config(before@, pin, mode)
    }

    open spec fn obeys_write(before: Self, pin: u8, level: u8, after: Self, r: Result<(), GpioErrorView>) -> bool {
        (after@, r) == mock_write(before@, pin, level)
    }

    open spec fn obeys_read(before: Self, pin: u8, after: Self, r: Result<u8, GpioErrorView>) -> bool {
        after@ == before@ && r == mock_read(before@, pin)
    }

    fn config(&mut self, pin: u8, mode: PinMode) -> (r: Result<(), GpioError>)
        ensures
            (final(self)@, result_view(r)) == mock_config(old(self)@, pin, mode),
    {
        check_pin(pin)?;
        // The maps are taken out and put back whole, so the binary-levels
        // invariant is checked on the rebuilt value.
        let mut taken = MockGpio::new();
        std::mem::swap(self, &mut taken);
        proof {
            use_type_invariant(&taken);
        }
        let ghost held = taken@.levels;
        assert(levels_are_binary(taken@));
        let MockGpio { levels, mut modes } = taken;
        assert(levels@ == held);
        modes.insert(pin, mode);
        assert(levels_are_binary(MockGpioView { levels: levels@, modes: modes@ }));
        *self = MockGpio { levels, modes };
        Ok(())
    }

    fn write(&mut self, pin: u8, level: u8) -> (r: Result<(), GpioError>)
        ensures
            (final(self)@, result_view(r)) == mock_write(old(self)@, pin, level),
    {
        check_pin(pin)?;
        if !self.modes.contains_key(&pin) {
            return Err(GpioError::Backend(String::from_str("pin not configured")));
        }
        let bit: u8 = if level != 0 {
            1
        } else {
            0
        };
        let mut taken = MockGpio::new();
        std::mem::swap(self, &mut taken);
        proof {
            use_type_invariant(&taken);
        }
        let ghost held = taken@.levels;
        assert(levels_are_binary(taken@));
        let MockGpio { mut levels, modes } = taken;
        let ghost before = levels@;
        assert(before == held);
        levels.insert(pin, bit);
        assert forall|p: u8| #[trigger] levels@.contains_key(p) implies levels@[p] <= 1 by {
            if p != pin {
                assert(before.contains_key(p));
            }
        }
        assert(levels_are_binary(MockGpioView { levels: levels@, modes: modes@ }));
        *self = MockGpio { levels, modes };
        Ok(())
    }

    fn read(&mut self, pin: u8) -> (r: Result<u8, GpioError>)
        ensures
            final(self)@ == old(self)@,
            result_view(r) == mock_read(old(self)@, pin),
            levels_are_binary(old(self)@),
    {
        proof {
            use_type_invariant(&*self);
        }
        check_pin(pin)?;
        if !self.modes.contains_key(&pin) {
            return Err(GpioError::Backend(String::from_str("pin not configured")));
        }
        match self.levels.get(&pin) {
            Some(level) => Ok(*level),
            None => Ok(0),
        }
    }
}

/// In-memory LED backend for host builds and tests: the last color set.
pub struct MockLed {
    last: Option<(u8, u8, u8)>,
}

impl View for MockLed {
    type V = Option<(u8, u8, u8)>;

    closed spec fn view(&self) -> Option<(u8, u8, u8)> {
        self.last
    }
}

impl MockLed {
    /// No color set yet.
    pub fn new() -> (l: Self)
        ensures
            l@ == None::<(u8, u8, u8)>,
    {
        MockLed { last: None }
    }

    /// The last color set, if any.
    pub fn last(&self) -> (c: Option<(u8, u8, u8)>)
        ensures
            c == self@,
    {
        self.last
    }
}

impl Default for MockLed {
    fn default() -> (l: Self)
        ensures
            l@ == None::<(u8, u8, u8)>,
    {
        Self::new()
    }
}

impl LedBackend for MockLed {
    open spec fn obeys_set_rgb(before: Self, r: u8, g: u8, b: u8, after: Self, res: Result<(), GpioErrorView>) -> bool {
        after@ == Some((r, g, b)) && res == Ok::<(), GpioErrorView>(())
    }

    fn set_rgb(&mut self, r: u8, g: u8, b: u8) -> (res: Result<(), GpioError>)
        ensures
            final(self)@ == Some((r, g, b)),
            res is Ok,
    {
        self.last = Some((r, g, b));
        Ok(())
    }
}

/// The methods this server offers.
pub open spec fn is_known_method(name: Seq<char>) -> bool {
    ||| name == "gpio_config"@
    ||| name == "gpio_write"@
    ||| name == "gpio_read"@
    ||| name == "led_set"@
}

/// Whether `name` is one of the methods this server offers. Used to tell an
/// unknown method (`-32601`) from bad params on a known one (`-32602`).
pub fn known_method(name: &String) -> (r: bool)
    ensures
        r == is_known_method(name@),
{
    let names = [
        String::from_str("gpio_config"),
        String::from_str("gpio_write"),
        String::from_str("gpio_read"),
        String::from_str("led_set"),
    ];
    let mut i: usize = 0;
    while i < 4
        invariant
            i <= 4,
            names@.len() == 4,
            names@[0]@ == "gpio_config"@,
            names@[1]@ == "gpio_write"@,
            names@[2]@ == "gpio_read"@,
            names@[3]@ == "led_set"@,
            forall|j: int| 0 <= j < i ==> names@[j]@ != name@,
        decreases 4 - i,
    {
        if *name == names[i] {
            return true;
        }
        i += 1;
    }
    false
}

/// What to do with one request line before any backend is touched.
pub enum LineStep {
    /// A notification: no response at all.
    Ignore,
    /// Answer at once with this error object.
    Answer { id: RpcId, error: RpcError },
    /// A known method: type `params` for it, then run it with [`answer_call`].
    Call { id: RpcId, method: String, params: Option<jsonrpc_lite::Params> },
}

/// Abstract line step.
pub enum LineStepView {
    Ignore,
    Answer(IdView, RpcErrorView),
    Call(IdView, Seq<char>, Option<jsonrpc_lite::Params>),
}

impl View for LineStep {
    type V = LineStepView;

    open spec fn view(&self) -> LineStepView {
        match self {
            LineStep::Ignore => LineStepView::Ignore,
            LineStep::Answer { id, error } => LineStepView::Answer(id@, error@),
            LineStep::Call { id, method, params } => LineStepView::Call(id@, method@, *params),
        }
    }
}

/// The decision for a parsed line: malformed JSON is a parse error with a
/// `null` id; a message without id is a notification and gets nothing; a
/// message without a method (an inbound response) is an invalid request; an
/// unknown method is method-not-found; a known one is called with the
/// message's params. Every answer carries the message's own id.
pub open spec fn triage(m: Option<MessageView>) -> LineStepView {
    match m {
        None => LineStepView::Answer(IdView::Null, parse_error_view()),
        Some(msg) => match msg.id {
            None => LineStepView::Ignore,
            Some(id) => match msg.method {
                None => LineStepView::Answer(id, invalid_request_view()),
                Some(name) => if is_known_method(name) {
                    LineStepView::Call(id, name, msg.params)
                } else {
                    LineStepView::Answer(id, method_not_found_view())
                },
            },
        },
    }
}

/// Decide what one request line calls for.
pub fn triage_message(m: Option<Message>) -> (step: LineStep)
    ensures
        step@ == triage(crate::rpc::parsed_view(m)),
{
    match m {
        None => LineStep::Answer { id: RpcId::Null, error: RpcError::parse_error() },
        Some(msg) => match msg.id {
            None => LineStep::Ignore,
            Some(id) => match msg.call {
                None => LineStep::Answer { id, error: RpcError::invalid_request() },
                Some(call) => if known_method(&call.method) {
                    LineStep::Call { id, method: call.method, params: call.params }
                } else {
                    LineStep::Answer { id, error: RpcError::method_not_found() }
                },
            },
        },
    }
}

/// Parse one request line and decide what it calls for.
pub fn begin_line(line: &[u8]) -> (step: LineStep)
    ensures
        step@ == triage(message_of(line@)),
{
    triage_message(parse_message(line))
}

/// What a backend hands back for a request that succeeded.
#[derive(Debug, Clone, Copy, PartialEq, Eq, Structural)]
pub enum Outcome {
    /// The operation was carried out.
    Done,
    /// The level read from a pin.
    Level(u8),
}

/// Whether an outcome is one the request can have: a level for a read, a
/// plain acknowledgement for everything else.
pub open spec fn outcome_fits(req: Request, o: Result<Outcome, GpioErrorView>) -> bool {
    match o {
        Ok(Outcome::Level(_)) => req is GpioRead,
        Ok(Outcome::Done) => !(req is GpioRead),
        Err(_) => true,
    }
}

/// The backend result behind an acknowledging outcome.
pub open spec fn done_view(o: Result<Outcome, GpioErrorView>) -> Result<(), GpioErrorView> {
    match o {
        Ok(_) => Ok(()),
        Err(e) => Err(e),
    }
}

/// The backend result behind a level outcome.
pub open spec fn level_view(o: Result<Outcome, GpioErrorView>) -> Result<u8, GpioErrorView> {
    match o {
        Ok(Outcome::Level(l)) => Ok(l),
        Ok(Outcome::Done) => Ok(0),
        Err(e) => Err(e),
    }
}

/// What running a request does to the backends: exactly the operation the
/// request names, with its fields, on the backend it names, whose result is
/// `o` (a read's level as [`Outcome::Level`]); the other backend is unchanged.
pub open spec fn request_effect<G: GpioBackend, L: LedBackend>(
    req: Request,
    gpio_before: G,
    led_before: L,
    gpio_after: G,
    led_after: L,
    o: Result<Outcome, GpioErrorView>,
) -> bool {
    match req {
        Request::GpioConfig { pin, mode } => {
            &&& G::obeys_config(gpio_before, pin, mode, gpio_after, done_view(o))
            &&& led_after == led_before
        },
        Request::GpioWrite { pin, level } => {
            &&& G::obeys_write(gpio_before, pin, level, gpio_after, done_view(o))
            &&& led_after == led_before
        },
        Request::GpioRead { pin } => {
            &&& G::obeys_read(gpio_before, pin, gpio_after, level_view(o))
            &&& led_after == led_before
        },
        Request::LedSet { r, g, b } => {
            &&& L::obeys_set_rgb(led_before, r, g, b, led_after, done_view(o))
            &&& gpio_after == gpio_before
        },
    }
}

/// Run a typed request against the backends: a pin operation goes to `gpio`,
/// `led_set` to `led`, with the request's own arguments, and the backend's
/// result is handed back (a read's level as [`Outcome::Level`]); the other
/// backend is left alone.
pub fn execute<G: GpioBackend, L: LedBackend>(req: Request, gpio: &mut G, led: &mut L) -> (out: Result<Outcome, GpioError>)
    ensures
        outcome_fits(req, result_view(out)),
        request_effect(req, *old(gpio), *old(led), *final(gpio), *final(led), result_view(out)),
{
    match req {
        Request::GpioConfig { pin, mode } => match gpio.config(pin, mode) {
            Ok(()) => Ok(Outcome::Done),
            Err(e) => Err(e),
        },
        Request::GpioWrite { pin, level } => match gpio.write(pin, level) {
            Ok(()) => Ok(Outcome::Done),
            Err(e) => Err(e),
        },
        Request::GpioRead { pin } => match gpio.read(pin) {
            Ok(level) => Ok(Outcome::Level(level)),
            Err(e) => Err(e),
        },
        Request::LedSet { r, g, b } => match led.set_rgb(r, g, b) {
            Ok(()) => Ok(Outcome::Done),
            Err(e) => Err(e),
        },
    }
}

/// The reply for a backend result: `{"ok": true}`, `{"level": n}`, or the
/// failure's error object.
pub open spec fn reply_spec(o: Result<Outcome, GpioErrorView>) -> ReplyView {
    match o {
        Ok(Outcome::Done) => ReplyView::Success { key: "ok"@, value: ResultValue::Flag(true) },
        Ok(Outcome::Level(l)) => ReplyView::Success { key: "level"@, value: ResultValue::Number(l as u64) },
        Err(e) => ReplyView::Failure(rpc_error_of(e)),
    }
}

/// The reply for a backend result.
pub fn reply_for(o: Result<Outcome, GpioError>) -> (r: Reply)
    ensures
        r@ == reply_spec(result_view(o)),
{
    match o {
        Ok(Outcome::Done) => Reply::Success { key: String::from_str("ok"), value: ResultValue::Flag(true) },
        Ok(Outcome::Level(l)) => Reply::Success { key: String::from_str("level"), value: ResultValue::Number(l as u64) },
        Err(e) => Reply::Failure(e.to_rpc_error()),
    }
}

/// Answer a call of a known method. `typed` is its params typed for the
/// method, or `None` when they do not fit: that is `-32602`, and no backend
/// is touched. Otherwise the request runs once against the backend it names,
/// with its own fields ([`request_effect`]), and the reply reports that
/// operation's result ([`reply_spec`]).
pub fn answer_call<G: GpioBackend, L: LedBackend>(typed: Option<Request>, gpio: &mut G, led: &mut L) -> (r: Reply)
    ensures
        typed is None ==> {
            &&& r@ == ReplyView::Failure(invalid_params_view())
            &&& *final(gpio) == *old(gpio)
            &&& *final(led) == *old(led)
        },
        typed matches Some(req) ==> exists|o: Result<Outcome, GpioErrorView>|
            #![trigger reply_spec(o)]
            {
                &&& outcome_fits(req, o)
                &&& request_effect(req, *old(gpio), *old(led), *final(gpio), *final(led), o)
                &&& r@ == reply_spec(o)
            },
{
    match typed {
        None => Reply::Failure(RpcError::invalid_params()),
        Some(req) => {
            let o = execute(req, gpio, led);
            let r = reply_for(o);
            assert(outcome_fits(req, result_view(o)) && request_effect(
                req,
                *old(gpio),
                *old(led),
                *gpio,
                *led,
                result_view(o),
            ) && r@ == reply_spec(result_view(o)));
            r
        },
    }
}

/// The response to one request line, once its step is known and, for a
/// call, its params are typed (`typed`; `None` when they do not fit).
/// A notification gets no response; an early answer is printed with no
/// backend touched; a call is answered as [`answer_call`] answers it.
pub fn finish_line<G: GpioBackend, L: LedBackend>(step: LineStep, typed: Option<Request>, gpio: &mut G, led: &mut L) -> (out: Option<String>)
    ensures
        match step@ {
            LineStepView::Ignore => {
                &&& out is None
                &&& *final(gpio) == *old(gpio)
                &&& *final(led) == *old(led)
            },
            LineStepView::Answer(id, e) => {
                &&& out matches Some(s) && s@ == error_json(id, e.code, e.message)
                &&& *final(gpio) == *old(gpio)
                &&& *final(led) == *old(led)
            },
            LineStepView::Call(id, _, _) => {
                &&& typed is None ==> {
                    &&& out matches Some(s) && s@ == reply_json(id, ReplyView::Failure(invalid_params_view()))
                    &&& *final(gpio) == *old(gpio)
                    &&& *final(led) == *old(led)
                }
                &&& typed matches Some(req) ==> exists|o: Result<Outcome, GpioErrorView>|
                    #![trigger reply_spec(o)]
                    {
                        &&& outcome_fits(req, o)
                        &&& request_effect(req, *old(gpio), *old(led), *final(gpio), *final(led), o)
                        &&& out matches Some(s) && s@ == reply_json(id, reply_spec(o))
                    }
            },
        },
{
    match step {
        LineStep::Ignore => None,
        LineStep::Answer { id, error } => Some(render(&id, &Reply::Failure(error))),
        LineStep::Call { id, method: _, params: _ } => {
            let reply = answer_call(typed, gpio, led);
            Some(render(&id, &reply))
        },
    }
}

/// Every stored level of a mock GPIO is 0 or 1.
pub open spec fn levels_are_binary(g: MockGpioView) -> bool {
    forall|p: u8| #[trigger] g.levels.contains_key(p) ==> g.levels[p] <= 1
}

/// Read-after-write law: on a configured pin, a read returns the level last
/// written, normalised to 0 or 1.
pub proof fn law_read_returns_written_level(g: MockGpioView, pin: u8, level: u8)
    requires
        pin_ok(pin),
        g.modes.contains_key(pin),
    ensures
        mock_write(g, pin, level).1 == Ok::<(), GpioErrorView>(()),
        mock_read(mock_write(g, pin, level).0, pin) == Ok::<u8, GpioErrorView>(binary_level(level)),
{
}

/// Configure-write-read law: after configuring a pin in range and writing it,
/// a read returns the written level as 0 or 1, whatever came before.
pub proof fn law_configure_write_read(g: MockGpioView, pin: u8, mode: PinMode, level: u8)
    requires
        pin_ok(pin),
    ensures
        ({
            let configured = mock_config(g, pin, mode);
            let written = mock_write(configured.0, pin, level);
            &&& configured.1 == Ok::<(), GpioErrorView>(())
            &&& written.1 == Ok::<(), GpioErrorView>(())
            &&& mock_read(written.0, pin) == Ok::<u8, GpioErrorView>(binary_level(level))
        }),
{
    let configured = mock_config(g, pin, mode);
    law_read_returns_written_level(configured.0, pin, level);
}

/// A write touches only its own pin: every other pin reads as before.
pub proof fn law_write_leaves_other_pins(g: MockGpioView, pin: u8, level: u8, other: u8)
    requires
        other != pin,
    ensures
        mock_read(mock_write(g, pin, level).0, other) == mock_read(g, other),
{
}

/// Configuring a pin in range records its mode, and only its mode.
pub proof fn law_config_records_mode(g: MockGpioView, pin: u8, mode: PinMode)
    requires
        pin_ok(pin),
    ensures
        mock_config(g, pin, mode).0.modes == g.modes.insert(pin, mode),
        mock_config(g, pin, mode).0.levels == g.levels,
{
}

/// A pin in range that was never configured can be neither written nor
/// read; the refusal leaves the state as it was.
pub proof fn law_unconfigured_pin_is_refused(g: MockGpioView, pin: u8, level: u8)
    requires
        pin_ok(pin),
        !g.modes.contains_key(pin),
    ensures
        mock_write(g, pin, level) == (g, Err::<(), GpioErrorView>(not_configured())),
        mock_read(g, pin) == Err::<u8, GpioErrorView>(not_configured()),
        rpc_error_of(not_configured()).code == SERVER_ERROR,
{
}

/// A pin out of range is refused by every operation as an invalid pin,
/// answered with `-32602`, and the state is left as it was.
pub proof fn law_out_of_range_pin_is_refused(g: MockGpioView, pin: u8, mode: PinMode, level: u8)
    requires
        !pin_ok(pin),
    ensures
        mock_config(g, pin, mode) == (g, Err::<(), GpioErrorView>(GpioErrorView::InvalidPin(pin))),
        mock_write(g, pin, level) == (g, Err::<(), GpioErrorView>(GpioErrorView::InvalidPin(pin))),
        mock_read(g, pin) == Err::<u8, GpioErrorView>(GpioErrorView::InvalidPin(pin)),
        rpc_error_of(GpioErrorView::InvalidPin(pin)).code == -32602,
{
}

/// Levels stay binary under every operation, so a successful read returns 0 or 1.
pub proof fn law_levels_stay_binary(g: MockGpioView, pin: u8, mode: PinMode, level: u8)
    requires
        levels_are_binary(g),
    ensures
        levels_are_binary(mock_config(g, pin, mode).0),
        levels_are_binary(mock_write(g, pin, level).0),
        mock_read(g, pin) matches Ok(l) ==> l <= 1,
{
    if pin_ok(pin) {
        assert(g.levels.contains_key(pin) ==> g.levels[pin] <= 1);
    }
}

/// Answers carry the request's id: every line that is answered or called
/// is so under the id its message carries, or under `null` when it does not
/// parse.
pub proof fn law_answers_echo_the_id(line: Seq<u8>)
    ensures
        match triage(message_of(line)) {
            LineStepView::Answer(id, _) | LineStepView::Call(id, _, _) => match message_of(line) {
                None => id == IdView::Null,
                Some(m) => m.id == Some(id),
            },
            LineStepView::Ignore => true,
        },
{
}

/// Notifications are never answered, and everything that is not a
/// notification is.
pub proof fn law_only_notifications_go_unanswered(line: Seq<u8>)
    ensures
        (triage(message_of(line)) is Ignore) <==> (message_of(line) matches Some(m) && m.id is None),
{
}

/// Error-code table: a malformed line gets `-32700`, a non-request `-32600`,
/// an unknown method `-32601`; a known method is never refused at this stage.
pub proof fn law_error_codes(line: Seq<u8>)
    ensures
        message_of(line) is None ==> triage(message_of(line)) == LineStepView::Answer(IdView::Null, parse_error_view()),
        message_of(line) matches Some(m) ==> match (m.id, m.method) {
            (Some(id), None) => triage(message_of(line)) == LineStepView::Answer(id, invalid_request_view()),
            (Some(id), Some(name)) => if is_known_method(name) {
                triage(message_of(line)) == LineStepView::Call(id, name, m.params)
            } else {
                triage(message_of(line)) == LineStepView::Answer(id, method_not_found_view())
            },
            (None, _) => triage(message_of(line)) is Ignore,
        },
{
}

/// Pin direction the device backend sets for a mode.
#[derive(Debug, Clone, Copy, PartialEq, Eq, Structural)]
pub enum EspDirection {
    Input,
    /// Output with the input buffer enabled, so a read sees the driven level.
    InputOutput,
}

/// Pull resistor the device backend sets for a mode.
#[derive(Debug, Clone, Copy, PartialEq, Eq, Structural)]
pub enum EspPull {
    Floating,
    PullUpOnly,
}

/// The direction and pull for each mode: `output` drives with the input
/// buffer on; `input_pullup` enables only the pull-up.
pub open spec fn esp_setup(mode: PinMode) -> (EspDirection, EspPull) {
    match mode {
        PinMode::Input => (EspDirection::Input, EspPull::Floating),
        PinMode::Output => (EspDirection::InputOutput, EspPull::Floating),
        PinMode::InputPullup => (EspDirection::Input, EspPull::PullUpOnly),
    }
}

/// The failure an `esp_err_t` status stands for: none for `ESP_OK` (0), else
/// a backend failure naming the code.
pub open spec fn esp_status(code: i32) -> Result<(), GpioErrorView> {
    if code == 0 {
        Ok(())
    } else {
        Err(GpioErrorView::Backend("esp_err_t "@ + signed_decimal(code as int)))
    }
}

/// Map an `esp_err_t` status to a GPIO result.
pub fn esp_ok(code: i32) -> (r: Result<(), GpioError>)
    ensures
        result_view(r) == esp_status(code),
{
    if code == 0 {
        Ok(())
    } else {
        let mut message = String::from_str("esp_err_t ");
        let digits = int_text(code as i64);
        message.append(digits.as_str());
        Err(GpioError::Backend(message))
    }
}

/// A device read: an invalid pin is refused, else the raw level is reported
/// as 0 or 1.
pub open spec fn esp_read(pin: u8, raw: i32) -> Result<u8, GpioErrorView> {
    if !pin_ok(pin) {
        Err(GpioErrorView::InvalidPin(pin))
    } else if raw != 0 {
        Ok(1)
    } else {
        Ok(0)
    }
}

/// Device-read law: a read of a pin in range never fails and gives 0 or 1;
/// only a pin out of range is refused, as an invalid pin.
pub proof fn law_esp_read_is_binary(pin: u8, raw: i32)
    ensures
        pin_ok(pin) ==> (esp_read(pin, raw) matches Ok(l) && l <= 1),
        !pin_ok(pin) ==> esp_read(pin, raw) == Err::<u8, GpioErrorView>(GpioErrorView::InvalidPin(pin)),
{
}

/// The device read agrees with the mock: after a pin in range is configured
/// as an output and written, a device read of the level the pin is driven to
/// gives what the mock's read gives after the same calls.
pub proof fn law_esp_read_matches_mock(g: MockGpioView, pin: u8, level: u8, raw: i32)
    requires
        pin_ok(pin),
        (raw != 0) == (level != 0),
    ensures
        esp_read(pin, raw) == mock_read(
            mock_write(mock_config(g, pin, PinMode::Output).0, pin, level).0,
            pin,
        ),
{
    law_configure_write_read(g, pin, PinMode::Output, level);
}

/// Real GPIO backend for the ESP32-S3: it drives any validated pin by runtime
/// number. This type holds its decisions; the device build performs the
/// esp-idf calls they call for.
#[derive(Debug, Clone, Copy, PartialEq, Eq, Structural)]
pub struct EspGpio;

impl EspGpio {
    pub fn new() -> (g: Self)
        ensures
            g == EspGpio,
    {
        EspGpio
    }

    /// Configuring: the pin is validated, then set to the mode's direction and pull.
    pub fn config_plan(&self, pin: u8, mode: PinMode) -> (r: Result<(EspDirection, EspPull), GpioError>)
        ensures
            result_view(r) == (if pin_ok(pin) {
                Ok::<(EspDirection, EspPull), GpioErrorView>(esp_setup(mode))
            } else {
                Err(GpioErrorView::InvalidPin(pin))
            }),
    {
        check_pin(pin)?;
        let setup = match mode {
            PinMode::Input => (EspDirection::Input, EspPull::Floating),
            PinMode::Output => (EspDirection::InputOutput, EspPull::Floating),
            PinMode::InputPullup => (EspDirection::Input, EspPull::PullUpOnly),
        };
        Ok(setup)
    }

    /// Writing: the pin is validated, then driven to 1 for any non-zero level, else 0.
    pub fn write_plan(&self, pin: u8, level: u8) -> (r: Result<u32, GpioError>)
        ensures
            result_view(r) == (if pin_ok(pin) {
                Ok::<u32, GpioErrorView>(binary_level(level) as u32)
            } else {
                Err(GpioErrorView::InvalidPin(pin))
            }),
    {
        check_pin(pin)?;
        if level != 0 {
            Ok(1)
        } else {
            Ok(0)
        }
    }

    /// Reading: the pin is validated; the raw level is then reported as 0 or 1.
    pub fn read_plan(&self, pin: u8) -> (r: Result<(), GpioError>)
        ensures
            result_view(r) == (if pin_ok(pin) {
                Ok::<(), GpioErrorView>(())
            } else {
                Err(GpioErrorView::InvalidPin(pin))
            }),
    {
        check_pin(pin)
    }

    /// The level reported for a raw `gpio_get_level` value.
    pub fn level_from_raw(&self, raw: i32) -> (l: u8)
        ensures
            l == (if raw != 0 {
                1u8
            } else {
                0u8
            }),
    {
        if raw != 0 {
            1
        } else {
            0
        }
    }

    /// The result of a read whose pin passed [`EspGpio::read_plan`] and whose
    /// raw level `gpio_get_level` returned.
    pub fn read_result(&self, pin: u8, raw: i32) -> (r: Result<u8, GpioError>)
        ensures
            result_view(r) == esp_read(pin, raw),
    {
        check_pin(pin)?;
        Ok(self.level_from_raw(raw))
    }
}

impl Default for EspGpio {
    fn default() -> (g: Self)
        ensures
            g == EspGpio,
    {
        EspGpio
    }
}

/// Pin-range law: exactly GPIO0 to GPIO48 are accepted.
pub proof fn law_pin_range_is_0_to_48(pin: u8)
    ensures
        pin_ok(pin) <==> pin <= 48,
        mock_read(MockGpioView { levels: Map::empty(), modes: Map::empty().insert(pin, PinMode::Input) }, pin)
            is Ok <==> pin <= 48,
{
}

/// A pin that is configured but was never written reads 0, whatever mode it
/// was configured with.
pub proof fn law_unwritten_pin_reads_zero(g: MockGpioView, pin: u8, mode: PinMode)
    requires
        pin <= 48,
        !g.levels.contains_key(pin),
    ensures
        mock_config(g, pin, mode).1 == Ok::<(), GpioErrorView>(()),
        mock_read(mock_config(g, pin, mode).0, pin) == Ok::<u8, GpioErrorView>(0),
{
}

/// A successful write stores a level for its own pin only: 1 for a
/// non-zero level, 0 for zero. Every other pin keeps its stored level, or its
/// lack of one, and no mode changes.
pub proof fn law_write_stores_only_its_pin(g: MockGpioView, pin: u8, level: u8)
    requires
        pin <= 48,
        g.modes.contains_key(pin),
    ensures
        mock_write(g, pin, level).1 == Ok::<(), GpioErrorView>(()),
        mock_write(g, pin, level).0.levels == g.levels.insert(pin, if level != 0 { 1u8 } else { 0u8 }),
        mock_write(g, pin, level).0.modes == g.modes,
        forall|q: u8| q != pin ==> {
            &&& (mock_write(g, pin, level).0.levels.contains_key(q) <==> g.levels.contains_key(q))
            &&& (g.levels.contains_key(q) ==> mock_write(g, pin, level).0.levels[q] == g.levels[q])
        },
{
    let after = mock_write(g, pin, level).0.levels;
    assert forall|q: u8| q != pin implies {
        &&& (after.contains_key(q) <==> g.levels.contains_key(q))
        &&& (g.levels.contains_key(q) ==> after[q] == g.levels[q])
    } by {}
}

/// Running a `gpio_config` request hands the backend the request's own pin
/// and mode; on the mock, a pin in range then has exactly that mode and the
/// request is acknowledged.
pub proof fn law_config_request_sets_its_mode<L: LedBackend>(
    pin: u8,
    mode: PinMode,
    before: MockGpio,
    led_before: L,
    after: MockGpio,
    led_after: L,
    o: Result<Outcome, GpioErrorView>,
)
    requires
        request_effect(Request::GpioConfig { pin, mode }, before, led_before, after, led_after, o),
        outcome_fits(Request::GpioConfig { pin, mode }, o),
    ensures
        MockGpio::obeys_config(before, pin, mode, after, done_view(o)),
        led_after == led_before,
        pin <= 48 ==> after@.modes == before@.modes.insert(pin, mode) && after@.modes[pin] == mode
            && o == Ok::<Outcome, GpioErrorView>(Outcome::Done),
        pin > 48 ==> after@ == before@ && o == Err::<Outcome, GpioErrorView>(GpioErrorView::InvalidPin(pin)),
{
}

/// Running a `gpio_config` request on any backend hands it the request's
/// own pin and mode.
pub proof fn law_config_request_passes_its_fields<G: GpioBackend, L: LedBackend>(
    pin: u8,
    mode: PinMode,
    before: G,
    led_before: L,
    after: G,
    led_after: L,
    o: Result<Outcome, GpioErrorView>,
)
    requires
        request_effect(Request::GpioConfig { pin, mode }, before, led_before, after, led_after, o),
    ensures
        G::obeys_config(before, pin, mode, after, done_view(o)),
        led_after == led_before,
{
}

/// Running an `led_set` request hands the LED backend the request's own
/// color, every channel 0 to 255 as given; on the mock LED the last color is
/// then exactly that color and the request is acknowledged.
pub proof fn law_led_request_sets_its_color<G: GpioBackend>(
    r: u8,
    g: u8,
    b: u8,
    gpio_before: G,
    before: MockLed,
    gpio_after: G,
    after: MockLed,
    o: Result<Outcome, GpioErrorView>,
)
    requires
        request_effect(Request::LedSet { r, g, b }, gpio_before, before, gpio_after, after, o),
        outcome_fits(Request::LedSet { r, g, b }, o),
    ensures
        MockLed::obeys_set_rgb(before, r, g, b, after, done_view(o)),
        after@ == Some((r, g, b)),
        o == Ok::<Outcome, GpioErrorView>(Outcome::Done),
        gpio_after == gpio_before,
{
}

/// Running an `led_set` request on any LED backend hands it the request's
/// own color.
pub proof fn law_led_request_passes_its_color<G: GpioBackend, L: LedBackend>(
    r: u8,
    g: u8,
    b: u8,
    gpio_before: G,
    led_before: L,
    gpio_after: G,
    led_after: L,
    o: Result<Outcome, GpioErrorView>,
)
    requires
        request_effect(Request::LedSet { r, g, b }, gpio_before, led_before, gpio_after, led_after, o),
    ensures
        L::obeys_set_rgb(led_before, r, g, b, led_after, done_view(o)),
        gpio_after == gpio_before,
{
}

/// Running a `gpio_write` request hands the backend the request's own pin
/// and level; on the mock, a configured pin in range then stores the level as
/// 0 or 1 and nothing else changes.
pub proof fn law_write_request_drives_its_pin<L: LedBackend>(
    pin: u8,
    level: u8,
    before: MockGpio,
    led_before: L,
    after: MockGpio,
    led_after: L,
    o: Result<Outcome, GpioErrorView>,
)
    requires
        request_effect(Request::GpioWrite { pin, level }, before, led_before, after, led_after, o),
        outcome_fits(Request::GpioWrite { pin, level }, o),
        pin <= 48,
        before@.modes.contains_key(pin),
    ensures
        after@.levels == before@.levels.insert(pin, if level != 0 { 1u8 } else { 0u8 }),
        after@.modes == before@.modes,
        o == Ok::<Outcome, GpioErrorView>(Outcome::Done),
        led_after == led_before,
{
}

/// Running a `gpio_read` request reads the request's own pin and reports its
/// level; on the mock the backend is unchanged and a configured pin in range
/// reports its stored level, or 0 if it was never written.
pub proof fn law_read_request_reports_its_pin<L: LedBackend>(
    pin: u8,
    before: MockGpio,
    led_before: L,
    after: MockGpio,
    led_after: L,
    o: Result<Outcome, GpioErrorView>,
)
    requires
        request_effect(Request::GpioRead { pin }, before, led_before, after, led_after, o),
        outcome_fits(Request::GpioRead { pin }, o),
        pin <= 48,
        before@.modes.contains_key(pin),
    ensures
        after@ == before@,
        led_after == led_before,
        o == Ok::<Outcome, GpioErrorView>(Outcome::Level(
            if before@.levels.contains_key(pin) { before@.levels[pin] } else { 0 },
        )),
{
}

} // verus!
