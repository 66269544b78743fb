//! The diffusivity `D = D0 * exp(-Ea / (R * T))`: two rate terms, how they
//! may be put together, and in what order an evaluation asks for them.

use vstd::prelude::*;
use crate::diffusion::error::DiffusivityError;
use crate::diffusion::rate_term::{ActivationEnergy, PreExponentialFactor, RateTerm};
use crate::diffusion::validation::validate_array_type;
use crate::python::PyObject;

verus! {

/// The ways of supplying the two terms of a diffusivity. Each term comes
/// either as a term built beforehand or as a raw callback to be wrapped.
#[derive(Clone, Copy, Debug, PartialEq, Eq, Structural)]
pub enum Combination {
    /// Both as terms.
    BothTerms,
    /// Both as callbacks.
    BothCallbacks,
    /// The pre-exponential factor as a term, the activation energy as a
    /// callback.
    TermAndCallback,
    /// The pre-exponential factor as a callback, the activation energy as
    /// a term.
    CallbackAndTerm,
}

/// Which combination the presence of the four arguments makes, if any.
pub open spec fn spec_classify(
    pre_exponential_term: bool,
    activation_energy_term: bool,
    pre_exponential_callback: bool,
    activation_energy_callback: bool,
) -> Option<Combination> {
    match (
        pre_exponential_term,
        activation_energy_term,
        pre_exponential_callback,
        activation_energy_callback,
    ) {
        (true, true, false, false) => Some(Combination::BothTerms),
        (false, false, true, true) => Some(Combination::BothCallbacks),
        (true, false, false, true) => Some(Combination::TermAndCallback),
        (false, true, true, false) => Some(Combination::CallbackAndTerm),
        _ => None,
    }
}

/// How many of four arguments are present.
pub open spec fn supplied(a: bool, b: bool, c: bool, d: bool) -> nat {
    (if a { 1nat } else { 0 }) + (if b { 1nat } else { 0 }) + (if c { 1nat } else { 0 }) + (if d {
        1nat
    } else {
        0
    })
}

/// Which combination the presence of the four arguments makes, if any.
pub fn classify(
    pre_exponential_term: bool,
    activation_energy_term: bool,
    pre_exponential_callback: bool,
    activation_energy_callback: bool,
) -> (combination: Option<Combination>)
    ensures
        combination == spec_classify(
            pre_exponential_term,
            activation_energy_term,
            pre_exponential_callback,
            activation_energy_callback,
        ),
{
    match (
        pre_exponential_term,
        activation_energy_term,
        pre_exponential_callback,
        activation_energy_callback,
    ) {
        (true, true, false, false) => Some(Combination::BothTerms),
        (false, false, true, true) => Some(Combination::BothCallbacks),
        (true, false, false, true) => Some(Combination::TermAndCallback),
        (false, true, true, false) => Some(Combination::CallbackAndTerm),
        _ => None,
    }
}

/// The arguments make a combination exactly when each of the two terms is
/// supplied in one way and not in both. So nothing supplied, one, three or
/// four arguments, and a term together with a callback for the same role,
/// make none.
pub proof fn lemma_one_source_for_each_term(
    pre_exponential_term: bool,
    activation_energy_term: bool,
    pre_exponential_callback: bool,
    activation_energy_callback: bool,
)
    ensures
        spec_classify(
            pre_exponential_term,
            activation_energy_term,
            pre_exponential_callback,
            activation_energy_callback,
        ) is Some <==> pre_exponential_term != pre_exponential_callback && activation_energy_term
            != activation_energy_callback,
        supplied(
            pre_exponential_term,
            activation_energy_term,
            pre_exponential_callback,
            activation_energy_callback,
        ) != 2 ==> spec_classify(
            pre_exponential_term,
            activation_energy_term,
            pre_exponential_callback,
            activation_energy_callback,
        ) is None,
        pre_exponential_term && pre_exponential_callback ==> spec_classify(
            pre_exponential_term,
            activation_energy_term,
            pre_exponential_callback,
            activation_energy_callback,
        ) is None,
        activation_energy_term && activation_energy_callback ==> spec_classify(
            pre_exponential_term,
            activation_energy_term,
            pre_exponential_callback,
            activation_energy_callback,
        ) is None,
{
}

/// The term that a role gets: the term supplied for it, or else the
/// callback supplied for it, wrapped.
pub open spec fn chosen<F>(term: Option<RateTerm<F>>, callback: Option<PyObject>) -> RateTerm<F> {
    match term {
        Some(term) => term,
        None => RateTerm::Foreign(callback.unwrap()),
    }
}

/// The term behind an argument that may hold a pre-exponential factor.
pub open spec fn factor_term<F>(factor: Option<&PreExponentialFactor<F>>) -> Option<RateTerm<F>> {
    match factor {
        Some(factor) => Some(factor@),
        None => None,
    }
}

/// The term behind an argument that may hold an activation energy.
pub open spec fn energy_term<F>(energy: Option<&ActivationEnergy<F>>) -> Option<RateTerm<F>> {
    match energy {
        Some(energy) => Some(energy@),
        None => None,
    }
}

/// What a diffusivity is made of: its two terms.
pub struct Terms<F> {
    pub pre_exponential: RateTerm<F>,
    pub activation_energy: RateTerm<F>,
}

/// A diffusivity of the modified Arrhenius form: one pre-exponential
/// factor and one activation energy. It holds nothing else, and nothing in
/// it changes once it is built.
#[derive(Debug)]
pub struct ArrheniusModifiedDiffusivity<F> {
    pre_exponential: PreExponentialFactor<F>,
    activation_energy: ActivationEnergy<F>,
}

impl<F> View for ArrheniusModifiedDiffusivity<F> {
    type V = Terms<F>;

    closed spec fn view(&self) -> Terms<F> {
        Terms {
            pre_exponential: self.pre_exponential@,
            activation_energy: self.activation_energy@,
        }
    }
}

/// The term whose value an evaluation is waiting for, with what it has
/// gathered so far. `S` is the type of a scalar.
#[derive(Debug)]
pub enum Stage<S> {
    /// The pre-exponential factor is being evaluated.
    PreExponential,
    /// The activation energy is being evaluated; the pre-exponential
    /// factor came to the value held here.
    ActivationEnergy(S),
}

/// What an evaluation has come to.
#[derive(Debug)]
pub enum Step<'a, F, S> {
    /// The term is to be invoked on the composition and the temperature,
    /// and the evaluation resumed at the stage with the outcome. The
    /// composition has been checked for this term.
    Evaluate(Stage<S>, &'a RateTerm<F>),
    /// Both terms have their values, the pre-exponential factor first: the
    /// diffusivity is the rate law applied to them and the temperature.
    Combine(S, S),
    /// The evaluation has failed.
    Fail(DiffusivityError),
}

impl<F> Terms<F> {
    /// Where an evaluation stands at its beginning. The composition is
    /// checked twice, for the diffusivity and then for the pre-exponential
    /// factor, as every term checks what it is invoked on: `own` and
    /// `first` are the verdicts.
    pub open spec fn begin<'a, S>(
        &'a self,
        own: Result<(), DiffusivityError>,
        first: Result<(), DiffusivityError>,
    ) -> Step<'a, F, S> {
        match own {
            Err(failure) => Step::Fail(failure),
            Ok(()) => match first {
                Err(failure) => Step::Fail(failure),
                Ok(()) => Step::Evaluate(Stage::PreExponential, &self.pre_exponential),
            },
        }
    }

    /// Where an evaluation stands once the term awaited at `stage` has come
    /// to `outcome`. Before the activation energy is asked for, the
    /// composition is checked for it: `second` is the verdict, which
    /// counts nowhere else.
    pub open spec fn resume<'a, S>(
        &'a self,
        stage: Stage<S>,
        outcome: Result<S, DiffusivityError>,
        second: Result<(), DiffusivityError>,
    ) -> Step<'a, F, S> {
        match outcome {
            Err(failure) => Step::Fail(failure),
            Ok(value) => match stage {
                Stage::PreExponential => match second {
                    Err(failure) => Step::Fail(failure),
                    Ok(()) => Step::Evaluate(Stage::ActivationEnergy(value), &self.activation_energy),
                },
                Stage::ActivationEnergy(pre_exponential) => Step::Combine(pre_exponential, value),
            },
        }
    }

    /// Where an evaluation ends when it is begun and then resumed, as long
    /// as it asks for a term, with the outcome of the pre-exponential
    /// factor and then with that of the activation energy.
    pub open spec fn run<'a, S>(
        &'a self,
        own: Result<(), DiffusivityError>,
        first: Result<(), DiffusivityError>,
        pre_exponential: Result<S, DiffusivityError>,
        second: Result<(), DiffusivityError>,
        activation_energy: Result<S, DiffusivityError>,
    ) -> Step<'a, F, S> {
        match self.begin::<S>(own, first) {
            Step::Evaluate(awaited, _) => match self.resume(awaited, pre_exponential, second) {
                Step::Evaluate(awaited, _) => self.resume(awaited, activation_energy, second),
                ended => ended,
            },
            ended => ended,
        }
    }

    /// What `ArrheniusModifiedDiffusivity::new` makes of a recognised
    /// combination of arguments, every callback among them being accepted:
    /// each role gets the term supplied for it, or else the callback
    /// supplied for it, wrapped.
    pub open spec fn assembled(
        pre_exponential_factor: Option<RateTerm<F>>,
        activation_energy: Option<RateTerm<F>>,
        pre_exponential_func: Option<PyObject>,
        activation_energy_func: Option<PyObject>,
    ) -> Self {
        Terms {
            pre_exponential: chosen(pre_exponential_factor, pre_exponential_func),
            activation_energy: chosen(activation_energy, activation_energy_func),
        }
    }

    /// An evaluation asks for the pre-exponential factor, then for the
    /// activation energy, and ends with the two values for the rate law, in
    /// this order and as they came. It ends at the first failure, which it
    /// hands on unchanged, and asks for no term after it. The end depends
    /// on nothing but the verdicts and the outcomes: a diffusivity keeps
    /// nothing from one evaluation to the next.
    pub proof fn lemma_evaluation<S>(
        self,
        own: Result<(), DiffusivityError>,
        first: Result<(), DiffusivityError>,
        pre_exponential: Result<S, DiffusivityError>,
        second: Result<(), DiffusivityError>,
        activation_energy: Result<S, DiffusivityError>,
    )
        ensures
            self.run(own, first, pre_exponential, second, activation_energy) == (
            match spec_evaluation(own, first, pre_exponential, second, activation_energy) {
                Ok((factor, energy)) => Step::<F, S>::Combine(factor, energy),
                Err(failure) => Step::<F, S>::Fail(failure),
            }),
            own is Ok && first is Ok ==> self.begin::<S>(own, first) == Step::<F, S>::Evaluate(
                Stage::PreExponential,
                &self.pre_exponential,
            ),
            pre_exponential matches Ok(factor) ==> (second is Ok ==> self.resume(
                Stage::PreExponential,
                pre_exponential,
                second,
            ) == Step::<F, S>::Evaluate(Stage::ActivationEnergy(factor), &self.activation_energy)),
            own is Err || first is Err ==> self.begin::<S>(own, first) is Fail,
            pre_exponential is Err || second is Err ==> self.resume(
                Stage::PreExponential,
                pre_exponential,
                second,
            ) is Fail,
    {
    }

    /// Each recognised combination of arguments makes what the
    /// combination of two terms makes, once every callback stands wrapped
    /// as the term it becomes; and that combination of two terms is itself
    /// recognised. So whichever way a diffusivity was built, it is
    /// evaluated as the one built from two terms is.
    pub proof fn lemma_combinations_agree<S>(
        pre_exponential_factor: Option<RateTerm<F>>,
        activation_energy: Option<RateTerm<F>>,
        pre_exponential_func: Option<PyObject>,
        activation_energy_func: Option<PyObject>,
        own: Result<(), DiffusivityError>,
        next: Result<(), DiffusivityError>,
        stage: Stage<S>,
        outcome: Result<S, DiffusivityError>,
    )
        requires
            spec_classify(
                pre_exponential_factor is Some,
                activation_energy is Some,
                pre_exponential_func is Some,
                activation_energy_func is Some,
            ) is Some,
        ensures
            ({
                let built = Self::assembled(
                    pre_exponential_factor,
                    activation_energy,
                    pre_exponential_func,
                    activation_energy_func,
                );
                let from_terms = Self::assembled(
                    Some(chosen(pre_exponential_factor, pre_exponential_func)),
                    Some(chosen(activation_energy, activation_energy_func)),
                    None,
                    None,
                );
                &&& built == from_terms
                &&& built.begin::<S>(own, next) == from_terms.begin::<S>(own, next)
                &&& built.resume(stage, outcome, next) == from_terms.resume(stage, outcome, next)
            }),
            spec_classify(true, true, false, false) == Some(Combination::BothTerms),
    {
    }
}

/// What a whole evaluation comes to: the values of the pre-exponential
/// factor and of the activation energy, in this order, or the first
/// failure among the checks and the terms, in the order in which they are
/// made: the diffusivity's check of the composition, the pre-exponential
/// factor's check, its value, the activation energy's check, its value.
pub open spec fn spec_evaluation<S>(
    own: Result<(), DiffusivityError>,
    first: Result<(), DiffusivityError>,
    pre_exponential: Result<S, DiffusivityError>,
    second: Result<(), DiffusivityError>,
    activation_energy: Result<S, DiffusivityError>,
) -> Result<(S, S), DiffusivityError> {
    match own {
        Err(failure) => Err(failure),
        Ok(()) => match first {
            Err(failure) => Err(failure),
            Ok(()) => match pre_exponential {
                Err(failure) => Err(failure),
                Ok(factor) => match second {
                    Err(failure) => Err(failure),
                    Ok(()) => match activation_energy {
                        Err(failure) => Err(failure),
                        Ok(energy) => Ok((factor, energy)),
                    },
                },
            },
        },
    }
}

impl<F> ArrheniusModifiedDiffusivity<F> {
    /// A diffusivity whose two terms are compiled formulas.
    pub fn from_rust_fns(pre_exp_fn: F, act_eng_fn: F) -> (diffusivity: Self)
        ensures
            diffusivity@ == (Terms {
                pre_exponential: RateTerm::Native(pre_exp_fn),
                activation_energy: RateTerm::Native(act_eng_fn),
            }),
    {
        ArrheniusModifiedDiffusivity {
            pre_exponential: PreExponentialFactor::from_rust_fn(pre_exp_fn),
            activation_energy: ActivationEnergy::from_rust_fn(act_eng_fn),
        }
    }

    /// Opens an evaluation on the composition `array`. Before any term is
    /// asked for, the composition is checked to be a sequence, for the
    /// diffusivity and again for the pre-exponential factor; whether it
    /// is, the interpreter decides. Where it is not, the evaluation fails
    /// with [`DiffusivityError::InvalidArgumentType`]; where it is, the
    /// pre-exponential factor is to be invoked.
    pub fn begin<'a, S>(&'a self, array: &PyObject) -> (step: Step<'a, F, S>)
        ensures
            step == self@.begin::<S>(Ok(()), Ok(())) || step == self@.begin::<S>(
                Err(DiffusivityError::InvalidArgumentType),
                Ok(()),
            ),
    {
        let own = validate_array_type(array);
        let first = if own.is_ok() {
            validate_array_type(array)
        } else {
            Ok(())
        };
        self.begin_checked(own, first)
    }

    /// Opens an evaluation on a composition that has been checked, with
    /// the verdicts of the diffusivity's check and of the pre-exponential
    /// factor's.
    pub fn begin_checked<'a, S>(
        &'a self,
        own: Result<(), DiffusivityError>,
        first: Result<(), DiffusivityError>,
    ) -> (step: Step<'a, F, S>)
        ensures
            step == self@.begin::<S>(own, first),
    {
        match own {
            Err(failure) => Step::Fail(failure),
            Ok(()) => match first {
                Err(failure) => Step::Fail(failure),
                Ok(()) => Step::Evaluate(Stage::PreExponential, self.pre_exponential.term()),
            },
        }
    }

    /// Resumes an evaluation on the composition `array`: the term awaited
    /// at `stage` has come to `outcome`. A failure ends the evaluation and
    /// is handed on as it came. A value of the pre-exponential factor is
    /// kept, the composition is checked for the activation energy, and the
    /// activation energy is to be invoked; a value of the activation
    /// energy completes the pair to which the rate law is applied.
    pub fn resume<'a, S>(
        &'a self,
        stage: Stage<S>,
        outcome: Result<S, DiffusivityError>,
        array: &PyObject,
    ) -> (step: Step<'a, F, S>)
        ensures
            step == self@.resume(stage, outcome, Ok(())) || step == self@.resume(
                stage,
                outcome,
                Err(DiffusivityError::InvalidArgumentType),
            ),
    {
        let asks = match (&stage, &outcome) {
            (Stage::PreExponential, Ok(_)) => true,
            _ => false,
        };
        let second = if asks {
            validate_array_type(array)
        } else {
            Ok(())
        };
        self.resume_checked(stage, outcome, second)
    }

    /// Resumes an evaluation: the term awaited at `stage` has come to
    /// `outcome`, and the check of the composition for the activation
    /// energy to `second`, which counts only where that term is asked for.
    pub fn resume_checked<'a, S>(
        &'a self,
        stage: Stage<S>,
        outcome: Result<S, DiffusivityError>,
        second: Result<(), DiffusivityError>,
    ) -> (step: Step<'a, F, S>)
        ensures
            step == self@.resume(stage, outcome, second),
    {
        match outcome {
            Err(failure) => Step::Fail(failure),
            Ok(value) => match stage {
                Stage::PreExponential => match second {
                    Err(failure) => Step::Fail(failure),
                    Ok(()) => Step::Evaluate(
                        Stage::ActivationEnergy(value),
                        self.activation_energy.term(),
                    ),
                },
                Stage::ActivationEnergy(pre_exponential) => Step::Combine(pre_exponential, value),
            },
        }
    }
}

impl<F: Copy> ArrheniusModifiedDiffusivity<F> {
    /// Builds a diffusivity from one of the four recognised combinations
    /// of arguments: a term or a raw callback for the pre-exponential
    /// factor, and a term or a raw callback for the activation energy.
    /// A term is cloned; a callback is checked to be callable and wrapped,
    /// the one for the pre-exponential factor first.
    ///
    /// Any other combination fails with
    /// [`DiffusivityError::InvalidConstruction`], before anything is
    /// checked. Two terms always succeed. With a callback among the
    /// arguments the interpreter decides whether it can be called: the
    /// only failure is then [`DiffusivityError::InvalidCallback`].
    pub fn new(
        pre_exponential_factor: Option<&PreExponentialFactor<F>>,
        activation_energy: Option<&ActivationEnergy<F>>,
        pre_exponential_func: Option<PyObject>,
        activation_energy_func: Option<PyObject>,
    ) -> (made: Result<Self, DiffusivityError>)
        ensures
            match spec_classify(
                pre_exponential_factor is Some,
                activation_energy is Some,
                pre_exponential_func is Some,
                activation_energy_func is Some,
            ) {
                None => made matches Err(failure) && failure
                    == DiffusivityError::InvalidConstruction,
                Some(combination) => match made {
                    Ok(diffusivity) => diffusivity@ == Terms::assembled(
                        factor_term(pre_exponential_factor),
                        energy_term(activation_energy),
                        pre_exponential_func,
                        activation_energy_func,
                    ),
                    Err(failure) => failure == DiffusivityError::InvalidCallback && combination
                        != Combination::BothTerms,
                },
            },
    {
        let combination = classify(
            pre_exponential_factor.is_some(),
            activation_energy.is_some(),
            pre_exponential_func.is_some(),
            activation_energy_func.is_some(),
        );
        if combination.is_none() {
            return Err(DiffusivityError::InvalidConstruction);
        }
        let pre_exponential = match (pre_exponential_factor, pre_exponential_func) {
            (Some(factor), _) => factor.clone(),
            (None, Some(callback)) => match PreExponentialFactor::new(callback) {
                Ok(factor) => factor,
                Err(failure) => {
                    return Err(failure);
                },
            },
            (None, None) => {
                return Err(DiffusivityError::InvalidConstruction);
            },
        };
        let activation_energy = match (activation_energy, activation_energy_func) {
            (Some(energy), _) => energy.clone(),
            (None, Some(callback)) => match ActivationEnergy::new(callback) {
                Ok(energy) => energy,
                Err(failure) => {
                    return Err(failure);
                },
            },
            (None, None) => {
                return Err(DiffusivityError::InvalidConstruction);
            },
        };
        Ok(ArrheniusModifiedDiffusivity { pre_exponential, activation_energy })
    }
}

} // verus!
