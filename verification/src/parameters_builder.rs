//! Parameters from a choice of overrides.
use vstd::prelude::*;
use crate::binary64::Binary64;
use crate::parameters::default_weights;
use crate::parameters::Parameters;
use crate::parameters::Weights;
use crate::parameters::DECAY;
use crate::parameters::FACTOR;
use crate::parameters::MAXIMUM_INTERVAL;
use crate::parameters::REQUEST_RETENTION;

verus! {

/// The overrides that were chosen so far; what was not chosen keeps its
/// default.
#[derive(Debug, Clone, PartialEq, Default)]
pub struct ParametersBuilder {
    pub request_retention: Option<Binary64>,
    pub maximum_interval: Option<i32>,
    pub w: Option<Weights>,
    pub decay: Option<Binary64>,
    pub factor: Option<Binary64>,
    pub enable_short_term: Option<bool>,
    pub enable_fuzz: Option<bool>,
    pub seed: Option<String>,
}

impl ParametersBuilder {
    /// A builder without overrides.
    pub open spec fn spec_new() -> ParametersBuilder {
        ParametersBuilder {
            request_retention: None,
            maximum_interval: None,
            w: None,
            decay: None,
            factor: None,
            enable_short_term: None,
            enable_fuzz: None,
            seed: None,
        }
    }

    pub fn new() -> (builder: Self)
        ensures
            builder == Self::spec_new(),
    {
        Self {
            request_retention: None,
            maximum_interval: None,
            w: None,
            decay: None,
            factor: None,
            enable_short_term: None,
            enable_fuzz: None,
            seed: None,
        }
    }

    /// The parameters: each override where one was chosen, else the
    /// default.
    pub fn build(self) -> (parameters: Parameters)
        ensures
            parameters.request_retention == (match self.request_retention {
                Some(r) => r,
                None => Binary64 { bits: REQUEST_RETENTION },
            }),
            parameters.maximum_interval == (match self.maximum_interval {
                Some(m) => m,
                None => MAXIMUM_INTERVAL,
            }),
            parameters.w@ == (match self.w {
                Some(w) => w@,
                None => Parameters::spec_default_weights(),
            }),
            parameters.decay == (match self.decay {
                Some(d) => d,
                None => Binary64 { bits: DECAY },
            }),
            parameters.factor == (match self.factor {
                Some(f) => f,
                None => Binary64 { bits: FACTOR },
            }),
            parameters.enable_short_term == (match self.enable_short_term {
                Some(b) => b,
                None => true,
            }),
            parameters.enable_fuzz == (match self.enable_fuzz {
                Some(b) => b,
                None => false,
            }),
            parameters.seed@ == (match self.seed {
                Some(s) => s@,
                None => "RNG"@,
            }),
            self == Self::spec_new() ==> parameters.is_default(),
    {
        Parameters {
            request_retention: match self.request_retention {
                Some(r) => r,
                None => Binary64 { bits: REQUEST_RETENTION },
            },
            maximum_interval: match self.maximum_interval {
                Some(m) => m,
                None => MAXIMUM_INTERVAL,
            },
            w: match self.w {
                Some(w) => w,
                None => default_weights(),
            },
            decay: match self.decay {
                Some(d) => d,
                None => Binary64 { bits: DECAY },
            },
            factor: match self.factor {
                Some(f) => f,
                None => Binary64 { bits: FACTOR },
            },
            enable_short_term: match self.enable_short_term {
                Some(b) => b,
                None => true,
            },
            enable_fuzz: match self.enable_fuzz {
                Some(b) => b,
                None => false,
            },
            seed: match self.seed {
                Some(s) => s,
                None => "RNG".to_owned(),
            },
        }
    }

    pub fn request_retention(self, request_retention: Option<Binary64>) -> (builder: Self)
        ensures
            builder == (ParametersBuilder { request_retention, ..self }),
    {
        let mut builder = self;
        builder.request_retention = request_retention;
        builder
    }

    pub fn maximum_interval(self, maximum_interval: Option<i32>) -> (builder: Self)
        ensures
            builder == (ParametersBuilder { maximum_interval, ..self }),
    {
        let mut builder = self;
        builder.maximum_interval = maximum_interval;
        builder
    }

    pub fn weights(self, weights: Option<Weights>) -> (builder: Self)
        ensures
            builder == (ParametersBuilder { w: weights, ..self }),
    {
        let mut builder = self;
        builder.w = weights;
        builder
    }

    pub fn decay(self, decay: Option<Binary64>) -> (builder: Self)
        ensures
            builder == (ParametersBuilder { decay, ..self }),
    {
        let mut builder = self;
        builder.decay = decay;
        builder
    }

    pub fn factor(self, factor: Option<Binary64>) -> (builder: Self)
        ensures
            builder == (ParametersBuilder { factor, ..self }),
    {
        let mut builder = self;
        builder.factor = factor;
        builder
    }

    pub fn enable_short_term(self, enable_short_term: Option<bool>) -> (builder: Self)
        ensures
            builder == (ParametersBuilder { enable_short_term, ..self }),
    {
        let mut builder = self;
        builder.enable_short_term = enable_short_term;
        builder
    }

    pub fn enable_fuzz(self, enable_fuzz: Option<bool>) -> (builder: Self)
        ensures
            builder == (ParametersBuilder { enable_fuzz, ..self }),
    {
        let mut builder = self;
        builder.enable_fuzz = enable_fuzz;
        builder
    }

    pub fn seed(self, seed: Option<String>) -> (builder: Self)
        ensures
            builder == (ParametersBuilder { seed, ..self }),
    {
        let mut builder = self;
        builder.seed = seed;
        builder
    }
}

} // verus!
