//! The hyperparameter record of a trained model, its validation and its
//! size class.
use vstd::prelude::*;

verus! {

/// All weights stored as 32-bit floats.
pub const LLAMA_FTYPE_ALL_F32: u32 = 0;
/// Mostly 16-bit floats.
pub const LLAMA_FTYPE_MOSTLY_F16: u32 = 1;
/// Mostly 4-bit blocks, type 0.
pub const LLAMA_FTYPE_MOSTLY_Q4_0: u32 = 2;
/// Mostly 4-bit blocks, type 1.
pub const LLAMA_FTYPE_MOSTLY_Q4_1: u32 = 3;
/// Mostly 4-bit blocks, type 1, with some tensors in 16-bit floats.
pub const LLAMA_FTYPE_MOSTLY_Q4_1_SOME_F16: u32 = 4;
/// Mostly 8-bit blocks, type 0.
pub const LLAMA_FTYPE_MOSTLY_Q8_0: u32 = 7;
/// Mostly 5-bit blocks, type 0.
pub const LLAMA_FTYPE_MOSTLY_Q5_0: u32 = 8;
/// Mostly 5-bit blocks, type 1.
pub const LLAMA_FTYPE_MOSTLY_Q5_1: u32 = 9;

/// Whether `code` is one of the assigned quantization codes (5 and 6 are
/// reserved).
pub open spec fn is_known_ftype(code: u32) -> bool {
    code <= 4 || (7 <= code && code <= 9)
}

/// The architecture of a trained model, as stored in its file header.
#[derive(Debug, Clone, Copy, PartialEq, Eq, Hash, Structural)]
pub struct LlamaHyperParams {
    pub n_vocab: u32,
    pub n_ctx: u32,
    pub n_embd: u32,
    pub n_mult: u32,
    pub n_head: u32,
    pub n_layer: u32,
    pub n_rot: u32,
    pub ftype: u32,
}

/// A field of the hyperparameter record.
#[derive(Debug, Clone, Copy, PartialEq, Eq, Structural)]
pub enum HyperParamField {
    NVocab,
    NCtx,
    NEmbd,
    NMult,
    NHead,
    NLayer,
    NRot,
    Ftype,
}

/// Why a hyperparameter record was rejected.
#[derive(Debug, Clone, Copy, PartialEq, Eq, Structural)]
pub enum ValidationError {
    /// `ftype` holds a code that names no quantization kind.
    UnknownFtype(u32),
    /// A count that must be positive is zero.
    NonPositive(HyperParamField),
    /// The embedding width is not a multiple of the head count.
    EmbdNotDivisibleByHead { n_embd: u32, n_head: u32 },
}

impl ValidationError {
    /// The field at fault.
    pub fn field(&self) -> (r: HyperParamField)
        ensures
            r == match *self {
                ValidationError::UnknownFtype(_) => HyperParamField::Ftype,
                ValidationError::NonPositive(f) => f,
                ValidationError::EmbdNotDivisibleByHead { .. } => HyperParamField::NEmbd,
            },
    {
        match *self {
            ValidationError::UnknownFtype(_) => HyperParamField::Ftype,
            ValidationError::NonPositive(f) => f,
            ValidationError::EmbdNotDivisibleByHead { .. } => HyperParamField::NEmbd,
        }
    }
}

/// The coarse size class of a model, the tiers of the 7B, 13B, 30B and 65B
/// parameter models, or `Unknown` when no tier matches.
#[derive(Debug, Clone, Copy, PartialEq, Eq, Structural)]
pub enum ModelSize {
    Unknown,
    Model7B,
    Model13B,
    Model30B,
    Model65B,
}

impl LlamaHyperParams {
    /// The first invariant that the record breaks, in the order the checks
    /// run: the quantization code first, then the counts in field order, then
    /// the split of the embedding width over the heads.
    pub open spec fn first_violation(self) -> Option<ValidationError> {
        if !is_known_ftype(self.ftype) {
            Some(ValidationError::UnknownFtype(self.ftype))
        } else if self.n_vocab == 0 {
            Some(ValidationError::NonPositive(HyperParamField::NVocab))
        } else if self.n_ctx == 0 {
            Some(ValidationError::NonPositive(HyperParamField::NCtx))
        } else if self.n_embd == 0 {
            Some(ValidationError::NonPositive(HyperParamField::NEmbd))
        } else if self.n_mult == 0 {
            Some(ValidationError::NonPositive(HyperParamField::NMult))
        } else if self.n_head == 0 {
            Some(ValidationError::NonPositive(HyperParamField::NHead))
        } else if self.n_layer == 0 {
            Some(ValidationError::NonPositive(HyperParamField::NLayer))
        } else if self.n_rot == 0 {
            Some(ValidationError::NonPositive(HyperParamField::NRot))
        } else if self.n_embd % self.n_head != 0 {
            Some(ValidationError::EmbdNotDivisibleByHead { n_embd: self.n_embd, n_head: self.n_head })
        } else {
            None
        }
    }

    /// Every invariant of the record holds: all counts positive, the
    /// embedding width a multiple of the head count, and a known `ftype`.
    pub open spec fn wf(self) -> bool {
        &&& is_known_ftype(self.ftype)
        &&& self.n_vocab > 0
        &&& self.n_ctx > 0
        &&& self.n_embd > 0
        &&& self.n_mult > 0
        &&& self.n_head > 0
        &&& self.n_layer > 0
        &&& self.n_rot > 0
        &&& self.n_embd % self.n_head == 0
    }

    /// The tier of a model with the given layer count and embedding width.
    pub open spec fn size_of(n_layer: u32, n_embd: u32) -> ModelSize {
        if n_layer == 32 && n_embd == 4096 {
            ModelSize::Model7B
        } else if n_layer == 40 && n_embd == 5120 {
            ModelSize::Model13B
        } else if n_layer == 60 && n_embd == 6656 {
            ModelSize::Model30B
        } else if n_layer == 80 && n_embd == 8192 {
            ModelSize::Model65B
        } else {
            ModelSize::Unknown
        }
    }

    /// Checks every invariant of the record, failing with the first one broken.
    pub fn validate(&self) -> (r: Result<(), ValidationError>)
        ensures
            r is Ok <==> self.first_violation() is None,
            r is Err ==> r == Err::<(), ValidationError>(self.first_violation().unwrap()),
    {
        if !(self.ftype <= 4 || (7 <= self.ftype && self.ftype <= 9)) {
            return Err(ValidationError::UnknownFtype(self.ftype));
        }
        if self.n_vocab == 0 {
            return Err(ValidationError::NonPositive(HyperParamField::NVocab));
        }
        if self.n_ctx == 0 {
            return Err(ValidationError::NonPositive(HyperParamField::NCtx));
        }
        if self.n_embd == 0 {
            return Err(ValidationError::NonPositive(HyperParamField::NEmbd));
        }
        if self.n_mult == 0 {
            return Err(ValidationError::NonPositive(HyperParamField::NMult));
        }
        if self.n_head == 0 {
            return Err(ValidationError::NonPositive(HyperParamField::NHead));
        }
        if self.n_layer == 0 {
            return Err(ValidationError::NonPositive(HyperParamField::NLayer));
        }
        if self.n_rot == 0 {
            return Err(ValidationError::NonPositive(HyperParamField::NRot));
        }
        if self.n_embd % self.n_head != 0 {
            return Err(
                ValidationError::EmbdNotDivisibleByHead { n_embd: self.n_embd, n_head: self.n_head },
            );
        }
        Ok(())
    }

    /// Takes a record read from a file header and returns it once it passes
    /// validation.
    pub fn parse(raw: LlamaHyperParams) -> (r: Result<LlamaHyperParams, ValidationError>)
        ensures
            match raw.first_violation() {
                None => r == Ok::<LlamaHyperParams, ValidationError>(raw),
                Some(e) => r == Err::<LlamaHyperParams, ValidationError>(e),
            },
    {
        match raw.validate() {
            Ok(()) => Ok(raw),
            Err(e) => Err(e),
        }
    }

    /// The number of values per attention head.
    pub fn head_dim(&self) -> (r: u32)
        requires
            self.n_head > 0,
        ensures
            r == self.n_embd / self.n_head,
    {
        self.n_embd / self.n_head
    }

    /// The size class of this model, from its layer count and embedding width.
    pub fn classify(&self) -> (r: ModelSize)
        ensures
            r == Self::size_of(self.n_layer, self.n_embd),
    {
        if self.n_layer == 32 && self.n_embd == 4096 {
            ModelSize::Model7B
        } else if self.n_layer == 40 && self.n_embd == 5120 {
            ModelSize::Model13B
        } else if self.n_layer == 60 && self.n_embd == 6656 {
            ModelSize::Model30B
        } else if self.n_layer == 80 && self.n_embd == 8192 {
            ModelSize::Model65B
        } else {
            ModelSize::Unknown
        }
    }
}

/// A record passes validation exactly when every invariant holds.
pub proof fn lemma_valid_iff_wf(h: LlamaHyperParams)
    ensures
        h.first_violation() is None <==> h.wf(),
{
}

/// A record whose `ftype` holds a reserved code (5 or 6) is rejected for its
/// `ftype`, whatever its other fields hold.
pub proof fn lemma_reserved_ftype_rejected(h: LlamaHyperParams)
    requires
        h.ftype == 5 || h.ftype == 6,
    ensures
        h.first_violation() == Some(ValidationError::UnknownFtype(h.ftype)),
{
}

/// The size class grows with the layer count: a larger tier always has more
/// layers and a wider embedding than a smaller one.
pub proof fn lemma_size_monotone(a: LlamaHyperParams, b: LlamaHyperParams)
    requires
        LlamaHyperParams::size_of(a.n_layer, a.n_embd) != ModelSize::Unknown,
        LlamaHyperParams::size_of(b.n_layer, b.n_embd) != ModelSize::Unknown,
        a.n_layer <= b.n_layer,
    ensures
        a.n_embd <= b.n_embd,
{
}

impl Default for LlamaHyperParams {
    /// The smallest reference configuration, a template and never a
    /// production model.
    fn default() -> (r: Self)
        ensures
            r == (LlamaHyperParams {
                n_vocab: 32000,
                n_ctx: 512,
                n_embd: 256,
                n_mult: 256,
                n_head: 32,
                n_layer: 32,
                n_rot: 64,
                ftype: LLAMA_FTYPE_MOSTLY_F16,
            }),
            r.wf(),
            r.first_violation() is None,
    {
        LlamaHyperParams {
            n_vocab: 32000,
            n_ctx: 512,
            n_embd: 256,
            n_mult: 256,
            n_head: 32,
            n_layer: 32,
            n_rot: 64,
            ftype: LLAMA_FTYPE_MOSTLY_F16,
        }
    }
}

} // verus!
