//! Streaming linear resampler.
//!
//! Converts a stream of mono samples at an arbitrary input rate to a stream
//! at another rate by linear interpolation. Output `j` lies at the input
//! position `j * input_rate / output_rate`; it is emitted as soon as the
//! input sample at or after that position arrives. Positions are kept as
//! exact fractions, so the stream never drifts, and only the previous sample
//! is remembered.
//!
//! The resampler is generic in the sample type. The arithmetic on samples is
//! supplied by the caller as a blend function: `blend(prev, next, num, den)`
//! is the sample `num / den` of the way from `prev` to `next`.

use vstd::arithmetic::div_mod::{
    lemma_fundamental_div_mod,
    lemma_fundamental_div_mod_converse,
    lemma_mod_bound,
};
use vstd::prelude::*;

verus! {

/// Number of outputs emitted once `inputs` samples have been pushed: one for
/// each position `j * input_rate / output_rate` up to the last input.
pub open spec fn output_count(input_rate: nat, output_rate: nat, inputs: nat) -> nat {
    if inputs == 0 {
        0
    } else {
        ((inputs - 1) * output_rate / (input_rate as int) + 1) as nat
    }
}

/// Index of the input sample on whose arrival output `output` is emitted:
/// the first input at or after the output's position.
pub open spec fn tap_input(input_rate: nat, output_rate: nat, output: nat) -> nat {
    ((output * input_rate + output_rate - 1) / (output_rate as int)) as nat
}

/// Where output `output` lies between the input before `tap_input` and the
/// input at `tap_input`, as a number of `output_rate`-ths of the way: more
/// than 0, at most `output_rate`.
pub open spec fn tap_weight(input_rate: nat, output_rate: nat, output: nat) -> int {
    output * input_rate - (tap_input(input_rate, output_rate, output) - 1) * output_rate
}

/// A quotient is known by the multiples of the divisor that enclose the
/// dividend.
proof fn lemma_quotient_enclosed(dividend: int, divisor: int, quotient: int)
    requires
        divisor > 0,
        quotient * divisor <= dividend < (quotient + 1) * divisor,
    ensures
        dividend / divisor == quotient,
{
    assert((quotient + 1) * divisor == quotient * divisor + divisor) by (nonlinear_arith);
    lemma_fundamental_div_mod_converse(
        dividend,
        divisor,
        quotient,
        dividend - quotient * divisor,
    );
}

/// The multiples of the divisor that enclose a dividend.
proof fn lemma_quotient_encloses(dividend: int, divisor: int)
    requires
        divisor > 0,
    ensures
        (dividend / divisor) * divisor <= dividend < (dividend / divisor + 1) * divisor,
{
    lemma_fundamental_div_mod(dividend, divisor);
    lemma_mod_bound(dividend, divisor);
    let quotient = dividend / divisor;
    assert(divisor * quotient == quotient * divisor) by (nonlinear_arith);
    assert((quotient + 1) * divisor == quotient * divisor + divisor) by (nonlinear_arith);
}

/// The outputs emitted after `inputs >= 1` samples are those at positions up
/// to the last input: `count` of them exactly when output `count - 1` lies
/// at or before input `inputs - 1` and output `count` lies after it.
pub proof fn lemma_output_count_enclosed(input_rate: nat, output_rate: nat, inputs: nat, count: nat)
    requires
        input_rate > 0,
        inputs >= 1,
    ensures
        count == output_count(input_rate, output_rate, inputs) <==> count >= 1 && (count - 1)
            * input_rate <= (inputs - 1) * output_rate < count * input_rate,
{
    let last = (inputs - 1) * output_rate;
    assert(last >= 0) by (nonlinear_arith)
        requires
            last == (inputs - 1) * output_rate,
            inputs >= 1,
    ;
    lemma_quotient_encloses(last, input_rate as int);
    assert(last / (input_rate as int) >= 0) by {
        vstd::arithmetic::div_mod::lemma_div_pos_is_pos(last, input_rate as int);
    }
    if count >= 1 && (count - 1) * input_rate <= last < count * input_rate {
        lemma_quotient_enclosed(last, input_rate as int, count - 1);
    }
}

/// Output `output` is emitted on the arrival of input `input` exactly when
/// its position lies after input `input - 1` and at or before input `input`.
pub proof fn lemma_tap_input_enclosed(input_rate: nat, output_rate: nat, output: nat, input: nat)
    requires
        output_rate > 0,
    ensures
        input == tap_input(input_rate, output_rate, output) <==> (input - 1) * output_rate < output
            * input_rate <= input * output_rate,
{
    let position = output * input_rate;
    assert(position >= 0) by (nonlinear_arith)
        requires
            position == output * input_rate,
    ;
    let shifted = position + output_rate - 1;
    lemma_quotient_encloses(shifted, output_rate as int);
    vstd::arithmetic::div_mod::lemma_div_pos_is_pos(shifted, output_rate as int);
    assert((input - 1) * output_rate == input * output_rate - output_rate) by (nonlinear_arith);
    assert((input + 1) * output_rate == input * output_rate + output_rate) by (nonlinear_arith);
    if (input - 1) * output_rate < position <= input * output_rate {
        lemma_quotient_enclosed(shifted, output_rate as int, input as int);
    }
}

/// Every output lies after the input before its tap and at or before its
/// tap: its weight is more than 0 and at most `output_rate`.
pub proof fn lemma_tap_weight_in_range(input_rate: nat, output_rate: nat, output: nat)
    requires
        output_rate > 0,
    ensures
        0 < tap_weight(input_rate, output_rate, output) <= output_rate,
{
    let input = tap_input(input_rate, output_rate, output);
    lemma_tap_input_enclosed(input_rate, output_rate, output, input);
    assert((input - 1) * output_rate == input * output_rate - output_rate) by (nonlinear_arith);
}

/// The outputs emitted on the arrival of input `input` are exactly those
/// counted after it and not before it.
pub proof fn lemma_outputs_of_input(input_rate: nat, output_rate: nat, input: nat, output: nat)
    requires
        input_rate > 0,
        output_rate > 0,
    ensures
        input == tap_input(input_rate, output_rate, output) <==> output_count(
            input_rate,
            output_rate,
            input,
        ) <= output < output_count(input_rate, output_rate, input + 1),
{
    let before = output_count(input_rate, output_rate, input);
    let after = output_count(input_rate, output_rate, input + 1);
    lemma_tap_input_enclosed(input_rate, output_rate, output, input);
    lemma_output_count_enclosed(input_rate, output_rate, input + 1, after);
    assert((input + 1 - 1) * output_rate == input * output_rate);
    assert((input - 1) * output_rate == input * output_rate - output_rate) by (nonlinear_arith);
    if input >= 1 {
        lemma_output_count_enclosed(input_rate, output_rate, input, before);
    }
    // `output` lies at or before input `input` exactly when it is counted
    // after it; likewise for input `input - 1`.
    assert(output * input_rate <= input * output_rate <==> output < after) by (nonlinear_arith)
        requires
            input_rate > 0,
            after >= 1,
            (after - 1) * input_rate <= input * output_rate < after * input_rate,
    ;
    if input >= 1 {
        assert(output * input_rate <= (input - 1) * output_rate <==> output < before)
            by (nonlinear_arith)
            requires
                input_rate > 0,
                before >= 1,
                (before - 1) * input_rate <= (input - 1) * output_rate < before * input_rate,
        ;
    } else {
        assert(output * input_rate >= 0) by (nonlinear_arith);
    }
}

/// The length of the output follows the ratio of the rates. After `inputs`
/// samples, with `count` outputs emitted, `count - inputs * output_rate /
/// input_rate` is more than `-output_rate / input_rate` and at most 1.
pub proof fn lemma_output_length_tracks_rate_ratio(input_rate: nat, output_rate: nat, inputs: nat)
    requires
        input_rate > 0,
        output_rate > 0,
    ensures
        ({
            let count = output_count(input_rate, output_rate, inputs);
            &&& count * input_rate <= inputs * output_rate + input_rate
            &&& inputs * output_rate < count * input_rate + output_rate
        }),
{
    let count = output_count(input_rate, output_rate, inputs);
    if inputs >= 1 {
        lemma_output_count_enclosed(input_rate, output_rate, inputs, count);
        assert((count - 1) * input_rate == count * input_rate - input_rate) by (nonlinear_arith);
        assert((inputs - 1) * output_rate == inputs * output_rate - output_rate)
            by (nonlinear_arith);
    } else {
        assert(count * input_rate == 0 && inputs * output_rate == 0) by (nonlinear_arith)
            requires
                count == 0,
                inputs == 0,
        ;
    }
}

/// Where the output rate does not exceed the input rate, the length of the
/// output differs from `inputs * output_rate / input_rate` by at most one
/// sample.
pub proof fn lemma_output_length_within_one(input_rate: nat, output_rate: nat, inputs: nat)
    requires
        0 < output_rate <= input_rate,
    ensures
        ({
            let count = output_count(input_rate, output_rate, inputs);
            -input_rate <= count * input_rate - inputs * output_rate <= input_rate
        }),
{
    lemma_output_length_tracks_rate_ratio(input_rate, output_rate, inputs);
}

/// With equal rates every output falls on the input of the same index, and
/// there are as many outputs as inputs.
pub proof fn lemma_equal_rates_tap_every_input(rate: nat, index: nat)
    requires
        rate > 0,
    ensures
        output_count(rate, rate, index) == index,
        tap_input(rate, rate, index) == index,
        tap_weight(rate, rate, index) == rate,
{
    lemma_tap_input_enclosed(rate, rate, index, index);
    assert((index - 1) * rate < index * rate) by (nonlinear_arith)
        requires
            rate > 0,
    ;
    if index >= 1 {
        lemma_output_count_enclosed(rate, rate, index, index);
        assert((index - 1) * rate < index * rate) by (nonlinear_arith)
            requires
                rate > 0,
        ;
    }
    assert(index * rate - (index - 1) * rate == rate) by (nonlinear_arith);
}

/// Streaming linear resampler state.
pub struct LinearResampler<S, F> {
    input_rate: u32,
    output_rate: u32,
    /// Distance from the previous input to the next output, in
    /// `output_rate`-ths of an input interval.
    phase: u64,
    prev_sample: Option<S>,
    blend: F,
    pushed: Ghost<Seq<S>>,
}

impl<S: Copy, F: Fn(S, S, u32, u32) -> S> LinearResampler<S, F> {
    /// Rate of the input stream.
    pub closed spec fn input_rate(&self) -> nat {
        self.input_rate as nat
    }

    /// Rate of the output stream.
    pub closed spec fn output_rate(&self) -> nat {
        self.output_rate as nat
    }

    /// The blend function.
    pub closed spec fn blend(&self) -> F {
        self.blend
    }

    /// The samples pushed so far.
    pub closed spec fn pushed(&self) -> Seq<S> {
        self.pushed@
    }

    /// Number of outputs emitted so far.
    pub open spec fn emitted(&self) -> nat {
        output_count(self.input_rate(), self.output_rate(), self.pushed().len())
    }

    /// Well-formedness: the rates are positive, the blend function accepts
    /// every argument, and the state is the one reached by pushing
    /// `self.pushed()`.
    pub closed spec fn wf(&self) -> bool {
        &&& self.input_rate > 0
        &&& self.output_rate > 0
        &&& forall|prev: S, next: S, num: u32, den: u32| call_requires(self.blend, (prev, next, num, den))
        &&& self.pushed@.len() == 0 ==> self.prev_sample is None && self.phase == 0
        &&& self.pushed@.len() > 0 ==> {
            &&& self.prev_sample == Some(self.pushed@.last())
            &&& 0 < self.phase <= self.input_rate
            &&& self.phase == self.emitted() * self.input_rate - (self.pushed@.len() - 1)
                * self.output_rate
        }
    }

    /// Whether `value` can be output `output` of the stream resampled from
    /// `inputs`: the input itself where the output falls on an input, else a
    /// result of blending its two neighbours.
    pub open spec fn is_output(&self, inputs: Seq<S>, output: nat, value: S) -> bool {
        let at = tap_input(self.input_rate(), self.output_rate(), output) as int;
        let weight = tap_weight(self.input_rate(), self.output_rate(), output);
        if weight == self.output_rate() {
            value == inputs[at]
        } else {
            call_ensures(
                self.blend(),
                (inputs[at - 1], inputs[at], weight as u32, self.output_rate() as u32),
                value,
            )
        }
    }

    /// Create a new resampler that converts from `input_rate` to
    /// `output_rate`, both positive, blending samples with `blend`.
    pub fn new(input_rate: u32, output_rate: u32, blend: F) -> (resampler: Self)
        requires
            input_rate > 0,
            output_rate > 0,
            forall|prev: S, next: S, num: u32, den: u32| call_requires(blend, (prev, next, num, den)),
        ensures
            resampler.wf(),
            resampler.input_rate() == input_rate,
            resampler.output_rate() == output_rate,
            resampler.blend() == blend,
            resampler.pushed() == Seq::<S>::empty(),
    {
        LinearResampler {
            input_rate,
            output_rate,
            phase: 0,
            prev_sample: None,
            blend,
            pushed: Ghost(Seq::empty()),
        }
    }

    /// Push a single mono sample and append any generated output samples to
    /// `out`.
    ///
    /// The first sample is emitted as it is. Every later sample emits the
    /// outputs that lie after the previous sample and at or before this one.
    pub fn push_sample(&mut self, sample: S, out: &mut Vec<S>)
        requires
            old(self).wf(),
        ensures
            final(self).wf(),
            final(self).input_rate() == old(self).input_rate(),
            final(self).output_rate() == old(self).output_rate(),
            final(self).blend() == old(self).blend(),
            final(self).pushed() == old(self).pushed().push(sample),
            final(self).emitted() >= old(self).emitted(),
            final(out)@.len() == old(out)@.len() + final(self).emitted() - old(self).emitted(),
            forall|i: int| 0 <= i < old(out)@.len() ==> final(out)@[i] == old(out)@[i],
            forall|i: int|
                old(out)@.len() <= i < final(out)@.len() ==> final(self).is_output(
                    final(self).pushed(),
                    (old(self).emitted() + i - old(out)@.len()) as nat,
                    #[trigger] final(out)@[i],
                ),
            old(self).input_rate() == old(self).output_rate() ==> final(out)@ == old(out)@.push(
                sample,
            ),
    {
        let ghost inputs = self.pushed@.len();
        let ghost stream = self.pushed@.push(sample);
        let ghost first = self.emitted();
        let ghost before = out@;
        let input_rate: u64 = self.input_rate as u64;
        let output_rate: u64 = self.output_rate as u64;
        match self.prev_sample {
            None => {
                out.push(sample);
                self.phase = input_rate;
                proof {
                    lemma_output_count_enclosed(input_rate as nat, output_rate as nat, 1, 1);
                    lemma_tap_input_enclosed(input_rate as nat, output_rate as nat, 0, 0);
                }
            },
            Some(prev) => {
                let mut phase: u64 = self.phase;
                let ghost mut count = first;
                proof {
                    lemma_output_count_enclosed(
                        input_rate as nat,
                        output_rate as nat,
                        inputs,
                        first,
                    );
                    assert(inputs * output_rate == (inputs - 1) * output_rate + output_rate)
                        by (nonlinear_arith);
                }
                while phase <= output_rate
                    invariant
                        *self == *old(self),
                        self.wf(),
                        input_rate == self.input_rate,
                        output_rate == self.output_rate,
                        inputs == self.pushed@.len(),
                        stream == self.pushed@.push(sample),
                        self.prev_sample == Some(prev),
                        inputs >= 1,
                        first >= 1,
                        count >= first,
                        phase == count * input_rate - (inputs - 1) * output_rate,
                        0 < phase <= input_rate + output_rate,
                        (count - 1) * input_rate <= inputs * output_rate,
                        out@.len() == before.len() + count - first,
                        forall|i: int| 0 <= i < before.len() ==> out@[i] == before[i],
                        forall|i: int|
                            before.len() <= i < out@.len() ==> self.is_output(
                                stream,
                                (first + i - before.len()) as nat,
                                #[trigger] out@[i],
                            ),
                    decreases input_rate + output_rate - phase,
                {
                    let value = if phase == output_rate {
                        sample
                    } else {
                        (self.blend)(prev, sample, phase as u32, self.output_rate)
                    };
                    proof {
                        assert(inputs * output_rate == (inputs - 1) * output_rate + output_rate)
                            by (nonlinear_arith);
                        lemma_tap_input_enclosed(
                            input_rate as nat,
                            output_rate as nat,
                            count,
                            inputs,
                        );
                        assert(self.is_output(stream, count, value));
                        assert((count + 1 - 1) * input_rate == count * input_rate);
                        assert((count + 1) * input_rate == count * input_rate + input_rate)
                            by (nonlinear_arith);
                    }
                    let ghost grown = out@;
                    out.push(value);
                    phase = phase + input_rate;
                    proof {
                        assert forall|i: int| before.len() <= i < out@.len() implies self.is_output(
                            stream,
                            (first + i - before.len()) as nat,
                            #[trigger] out@[i],
                        ) by {
                            if i < grown.len() {
                                assert(out@[i] == grown[i]);
                            }
                        }
                        count = count + 1;
                    }
                }
                self.phase = phase - output_rate;
                proof {
                    assert((inputs + 1 - 1) * output_rate == inputs * output_rate);
                    lemma_output_count_enclosed(
                        input_rate as nat,
                        output_rate as nat,
                        inputs + 1,
                        count,
                    );
                }
            },
        }
        self.prev_sample = Some(sample);
        self.pushed = Ghost(stream);
        proof {
            if input_rate == output_rate {
                lemma_equal_rates_tap_every_input(input_rate as nat, inputs);
                lemma_equal_rates_tap_every_input(input_rate as nat, inputs + 1);
                assert(out@[before.len() as int] == sample);
                assert(out@ =~= before.push(sample));
            }
        }
    }
}

} // verus!
