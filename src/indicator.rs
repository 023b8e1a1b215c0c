//! The indicator engine: rolling windows, warm-up, the computed value and
//! its signal.

use crate::rolling_buffer::{last_n, lemma_last_n_push, lemma_seq_sum_bounds, seq_sum, ConfigError, RollingBuffer};
use crate::signal::{classify, classify_spec, Signal};
use vstd::arithmetic::div_mod::{lemma_div_is_ordered, lemma_div_multiples_vanish};
use vstd::prelude::*;

verus! {

/// The fields of one price bar that the indicator reads, as fixed-point
/// raw prices.
#[derive(Clone, Copy, Debug)]
pub struct Observation {
    pub close: i64,
    pub high: i64,
    pub low: i64,
}

pub open spec fn closes_of(bars: Seq<Observation>) -> Seq<i64> {
    bars.map_values(|b: Observation| b.close)
}

pub open spec fn highs_of(bars: Seq<Observation>) -> Seq<i64> {
    bars.map_values(|b: Observation| b.high)
}

pub open spec fn lows_of(bars: Seq<Observation>) -> Seq<i64> {
    bars.map_values(|b: Observation| b.low)
}

/// Arithmetic mean rounded toward negative infinity.
pub open spec fn mean(s: Seq<i64>) -> int {
    seq_sum(s) / (s.len() as int)
}

/// The computed value once `bars` have been fed: the mean close of the last
/// `period` bars, or the default 0 while warming up.
pub open spec fn value_after(period: nat, bars: Seq<Observation>) -> int {
    if bars.len() >= period {
        mean(last_n(closes_of(bars), period))
    } else {
        0
    }
}

/// The signal once `bars` have been fed: the classification of the value, or
/// neutral while warming up.
pub open spec fn signal_after(period: nat, bars: Seq<Observation>) -> Signal {
    if bars.len() >= period {
        classify_spec(value_after(period, bars))
    } else {
        Signal::Neutral
    }
}

/// The previous value once `bars` have been fed: the value computed on the
/// bar before the last one, where the indicator was already initialized
/// before that last bar; 0 otherwise.
pub open spec fn prev_value_after(period: nat, bars: Seq<Observation>) -> int {
    if bars.len() > period {
        value_after(period, bars.drop_last())
    } else {
        0
    }
}

/// The observable state of an indicator.
pub struct IndicatorView {
    pub period: nat,
    pub closes: Seq<i64>,
    pub highs: Seq<i64>,
    pub lows: Seq<i64>,
    pub prev_value: int,
    pub value: int,
    pub signal: Signal,
    pub has_inputs: bool,
    pub initialized: bool,
}

/// The state of an indicator with the given period after `bars` have been
/// fed to it since construction or the last reset.
pub open spec fn model(period: nat, bars: Seq<Observation>) -> IndicatorView {
    IndicatorView {
        period,
        closes: last_n(closes_of(bars), period),
        highs: last_n(highs_of(bars), period),
        lows: last_n(lows_of(bars), period),
        prev_value: prev_value_after(period, bars),
        value: value_after(period, bars),
        signal: signal_after(period, bars),
        has_inputs: bars.len() > 0,
        initialized: bars.len() >= period,
    }
}

/// Where an indicator stands in its life since construction or the last
/// reset.
#[derive(Clone, Copy, Debug, PartialEq, Eq, Structural)]
pub enum Phase {
    /// No bar fed yet.
    Empty,
    /// Some bars fed, the windows not yet full.
    WarmingUp,
    /// The windows have been full; a value is computed on every bar.
    Ready,
}

pub open spec fn phase_spec(v: IndicatorView) -> Phase {
    if v.initialized {
        Phase::Ready
    } else if v.has_inputs {
        Phase::WarmingUp
    } else {
        Phase::Empty
    }
}

/// A rolling-window indicator over bars, with a warm-up of `period` bars.
pub struct PineIndicator {
    period: usize,
    closes: RollingBuffer<i64>,
    highs: RollingBuffer<i64>,
    lows: RollingBuffer<i64>,
    prev_value: i64,
    value: i64,
    signal: Signal,
    initialized: bool,
    has_inputs: bool,
    fed: Ghost<Seq<Observation>>,
}

/// Decimal digits of `n`, most significant first.
pub open spec fn decimal(n: nat) -> Seq<char>
    decreases n,
{
    if n < 10 {
        seq![digit_char(n)]
    } else {
        decimal(n / 10).push(digit_char(n % 10))
    }
}

pub open spec fn digit_char(d: nat) -> char {
    if d == 0 { '0' }
    else if d == 1 { '1' }
    else if d == 2 { '2' }
    else if d == 3 { '3' }
    else if d == 4 { '4' }
    else if d == 5 { '5' }
    else if d == 6 { '6' }
    else if d == 7 { '7' }
    else if d == 8 { '8' }
    else { '9' }
}

/// The identifier of an indicator with the given period.
pub open spec fn name_spec(period: nat) -> Seq<char> {
    seq!['P', 'i', 'n', 'e', 'I', 'n', 'd', 'i', 'c', 'a', 't', 'o', 'r', '(']
        + decimal(period) + seq![')']
}

/// Relies on std's `format!` with `Display` for `usize`: the decimal digits
/// of the number between the kind and the closing parenthesis.
#[verifier::external_body]
fn format_name(period: usize) -> (r: String)
    ensures
        r@ == name_spec(period as nat),
{
    format!("PineIndicator({})", period)
}

/// Where `n` values of type `i64` sum to `s`, their floor mean is an `i64`.
proof fn lemma_mean_fits(s: int, n: int)
    requires
        n > 0,
        n * (i64::MIN as int) <= s <= n * (i64::MAX as int),
    ensures
        i64::MIN <= s / n <= i64::MAX,
{
    lemma_div_is_ordered(n * (i64::MIN as int), s, n);
    lemma_div_is_ordered(s, n * (i64::MAX as int), n);
    lemma_div_multiples_vanish(i64::MIN as int, n);
    lemma_div_multiples_vanish(i64::MAX as int, n);
}

impl View for PineIndicator {
    type V = IndicatorView;

    closed spec fn view(&self) -> IndicatorView {
        IndicatorView {
            period: self.period as nat,
            closes: self.closes@,
            highs: self.highs@,
            lows: self.lows@,
            prev_value: self.prev_value as int,
            value: self.value as int,
            signal: self.signal,
            has_inputs: self.has_inputs,
            initialized: self.initialized,
        }
    }
}

impl PineIndicator {
    /// The bars fed since construction or the last reset, oldest first.
    pub closed spec fn history(&self) -> Seq<Observation> {
        self.fed@
    }

    /// The period is positive and the whole state is the one that the
    /// history determines.
    pub closed spec fn wf(&self) -> bool {
        &&& self.period > 0
        &&& self.closes.wf() && self.highs.wf() && self.lows.wf()
        &&& self.closes.capacity_spec() == self.period
        &&& self.highs.capacity_spec() == self.period
        &&& self.lows.capacity_spec() == self.period
        &&& self@ == model(self.period as nat, self.fed@)
    }

    /// A fresh indicator over windows of `period` bars; a zero period is a
    /// configuration error.
    pub fn new(period: usize) -> (r: Result<Self, ConfigError>)
        ensures
            period == 0 <==> r is Err,
            r is Err ==> r->Err_0 == ConfigError::ZeroPeriod,
            r is Ok ==> {
                &&& r->Ok_0.wf()
                &&& r->Ok_0.history() == Seq::<Observation>::empty()
                &&& r->Ok_0@ == model(period as nat, Seq::<Observation>::empty())
                &&& r->Ok_0@.period == period
                &&& !r->Ok_0@.has_inputs
                &&& !r->Ok_0@.initialized
                &&& r->Ok_0@.value == 0
                &&& r->Ok_0@.prev_value == 0
                &&& r->Ok_0@.signal == Signal::Neutral
                &&& r->Ok_0@.closes.len() == 0
            },
    {
        let closes = match RollingBuffer::new(period) {
            Ok(b) => b,
            Err(e) => return Err(e),
        };
        let highs = match RollingBuffer::new(period) {
            Ok(b) => b,
            Err(e) => return Err(e),
        };
        let lows = match RollingBuffer::new(period) {
            Ok(b) => b,
            Err(e) => return Err(e),
        };
        let r = PineIndicator {
            period,
            closes,
            highs,
            lows,
            prev_value: 0,
            value: 0,
            signal: Signal::Neutral,
            initialized: false,
            has_inputs: false,
            fed: Ghost(Seq::empty()),
        };
        assert(r@ == model(period as nat, Seq::<Observation>::empty())) by {
            assert(closes_of(Seq::<Observation>::empty()) =~= Seq::<i64>::empty());
            assert(highs_of(Seq::<Observation>::empty()) =~= Seq::<i64>::empty());
            assert(lows_of(Seq::<Observation>::empty()) =~= Seq::<i64>::empty());
        }
        Ok(r)
    }

    /// The mean close of the full window.
    fn calculate(&self) -> (r: i64)
        requires
            self.closes.wf(),
            self.closes@.len() == self.period,
            self.period > 0,
        ensures
            r == mean(self.closes@),
    {
        let total: i128 = self.closes.sum();
        let n: usize = self.closes.len();
        proof {
            lemma_seq_sum_bounds(self.closes@);
            lemma_mean_fits(total as int, n as int);
        }
        let q: i128 = total.checked_div_euclid(n as i128).unwrap();
        q as i64
    }

    /// Feeds one bar: remembers the value computed before it where the
    /// indicator was initialized, pushes the bar's fields into their windows,
    /// and once the windows are full computes the value and its signal.
    pub fn update(&mut self, bar: Observation)
        requires
            old(self).wf(),
        ensures
            final(self).wf(),
            final(self).history() == old(self).history().push(bar),
            final(self)@ == model(old(self)@.period, old(self).history().push(bar)),
            final(self)@.period == old(self)@.period,
            final(self)@.prev_value == if old(self)@.initialized {
                old(self)@.value
            } else {
                old(self)@.prev_value
            },
            final(self)@.closes == last_n(old(self)@.closes.push(bar.close), old(self)@.period),
            final(self)@.highs == last_n(old(self)@.highs.push(bar.high), old(self)@.period),
            final(self)@.lows == last_n(old(self)@.lows.push(bar.low), old(self)@.period),
            final(self)@.has_inputs,
            final(self)@.closes.len() < final(self)@.period ==> {
                &&& final(self)@.value == old(self)@.value
                &&& final(self)@.signal == old(self)@.signal
                &&& final(self)@.initialized == old(self)@.initialized
            },
            final(self)@.closes.len() == final(self)@.period ==> {
                &&& final(self)@.value == mean(final(self)@.closes)
                &&& final(self)@.signal == classify_spec(final(self)@.value)
                &&& final(self)@.initialized
            },
    {
        let ghost h = self.fed@;
        let ghost p = self.period as nat;
        let ghost h2 = h.push(bar);
        proof {
            lemma_last_n_push(closes_of(h), bar.close, p);
            lemma_last_n_push(highs_of(h), bar.high, p);
            lemma_last_n_push(lows_of(h), bar.low, p);
            assert(closes_of(h2) =~= closes_of(h).push(bar.close));
            assert(highs_of(h2) =~= highs_of(h).push(bar.high));
            assert(lows_of(h2) =~= lows_of(h).push(bar.low));
            assert(h2.drop_last() =~= h);
        }
        if self.initialized {
            self.prev_value = self.value;
        }
        self.closes.push(bar.close);
        self.highs.push(bar.high);
        self.lows.push(bar.low);
        self.has_inputs = true;
        self.fed = Ghost(h2);
        if !self.closes.is_full() {
            return;
        }
        self.value = self.calculate();
        self.signal = classify(self.value);
        self.initialized = true;
    }

    /// Stable identifier of the indicator kind and its period.
    pub fn name(&self) -> (r: String)
        ensures
            r@ == name_spec(self@.period),
    {
        format_name(self.period)
    }

    pub fn period(&self) -> (r: usize)
        ensures
            r == self@.period,
    {
        self.period
    }

    /// Whether any bar has been fed since construction or the last reset.
    pub fn has_inputs(&self) -> (r: bool)
        ensures
            r == self@.has_inputs,
    {
        self.has_inputs
    }

    /// Whether the windows have been full at least once since construction
    /// or the last reset.
    pub fn initialized(&self) -> (r: bool)
        ensures
            r == self@.initialized,
    {
        self.initialized
    }

    /// The phase that the two flags describe; an initialized indicator
    /// always has inputs.
    pub fn phase(&self) -> (r: Phase)
        requires
            self.wf(),
        ensures
            r == phase_spec(self@),
            self@.initialized ==> self@.has_inputs,
    {
        if self.initialized {
            Phase::Ready
        } else if self.has_inputs {
            Phase::WarmingUp
        } else {
            Phase::Empty
        }
    }

    /// The current computed value.
    pub fn value(&self) -> (r: i64)
        ensures
            r == self@.value,
    {
        self.value
    }

    /// The value computed before the last bar, for crossing detection.
    pub fn prev_value(&self) -> (r: i64)
        ensures
            r == self@.prev_value,
    {
        self.prev_value
    }

    /// The current signal.
    pub fn signal(&self) -> (r: Signal)
        ensures
            r == self@.signal,
    {
        self.signal
    }

    /// The closes in the window, oldest first.
    pub fn closes(&self) -> (r: Vec<i64>)
        ensures
            r@ == self@.closes,
    {
        self.closes.to_vec()
    }

    /// The highs in the window, oldest first.
    pub fn highs(&self) -> (r: Vec<i64>)
        ensures
            r@ == self@.highs,
    {
        self.highs.to_vec()
    }

    /// The lows in the window, oldest first.
    pub fn lows(&self) -> (r: Vec<i64>)
        ensures
            r@ == self@.lows,
    {
        self.lows.to_vec()
    }

    /// Empties the windows and restores every output and flag to its value
    /// at construction; the period stays.
    pub fn reset(&mut self)
        requires
            old(self).wf(),
        ensures
            final(self).wf(),
            final(self).history() == Seq::<Observation>::empty(),
            final(self)@ == model(old(self)@.period, Seq::<Observation>::empty()),
    {
        self.closes.clear();
        self.highs.clear();
        self.lows.clear();
        self.prev_value = 0;
        self.value = 0;
        self.signal = Signal::Neutral;
        self.initialized = false;
        self.has_inputs = false;
        self.fed = Ghost(Seq::empty());
        assert(self@ == model(self.period as nat, Seq::<Observation>::empty())) by {
            assert(closes_of(Seq::<Observation>::empty()) =~= Seq::<i64>::empty());
            assert(highs_of(Seq::<Observation>::empty()) =~= Seq::<i64>::empty());
            assert(lows_of(Seq::<Observation>::empty()) =~= Seq::<i64>::empty());
        }
    }
}

/// While fewer than `period` bars have been fed the indicator is not
/// initialized, and it has inputs exactly when at least one bar was fed.
pub proof fn lemma_warming_up(period: nat, bars: Seq<Observation>)
    requires
        period > 0,
        bars.len() < period,
    ensures
        !model(period, bars).initialized,
        model(period, bars).has_inputs <==> bars.len() >= 1,
{
}

/// Once at least `period` bars have been fed the indicator is initialized
/// and every window holds exactly `period` values, however many bars came.
pub proof fn lemma_ready_bounded(period: nat, bars: Seq<Observation>)
    requires
        period > 0,
        bars.len() >= period,
    ensures
        model(period, bars).initialized,
        model(period, bars).closes.len() == period,
        model(period, bars).highs.len() == period,
        model(period, bars).lows.len() == period,
{
}

/// The previous value never holds a warm-up placeholder: it stays 0 until
/// the indicator was initialized before a bar, and from then on it is the
/// value computed on the bar before.
pub proof fn lemma_prev_value_after_ready(period: nat, bars: Seq<Observation>)
    requires
        period > 0,
    ensures
        bars.len() <= period ==> model(period, bars).prev_value == 0,
        bars.len() > period ==> {
            &&& model(period, bars.drop_last()).initialized
            &&& model(period, bars).prev_value == model(period, bars.drop_last()).value
        },
{
}

/// Reset after any history leaves an indicator in the state of a freshly
/// constructed one with the same period.
pub proof fn lemma_reset_is_fresh(reset: &PineIndicator, fresh: &PineIndicator)
    requires
        reset.wf(),
        fresh.wf(),
        reset@.period == fresh@.period,
        reset.history() == Seq::<Observation>::empty(),
        fresh.history() == Seq::<Observation>::empty(),
    ensures
        reset@ == fresh@,
{
}

} // verus!
