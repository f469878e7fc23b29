//! The shared uniform buffers: their sizes, and where each is bound.

use vstd::prelude::*;
use vstd::bytes::{spec_u32_to_le_bytes, u32_to_le_bytes};
use crate::gpu_state::TimeUBO;

verus! {

/// One of the uniform buffers that all passes share.
#[derive(Copy, Clone, PartialEq, Eq, Structural, Debug)]
pub enum Ubo {
    /// The view-projection matrix.
    Camera,
    /// The model matrix.
    Model,
    /// The direction and the colour of the light.
    Light,
    /// The base colour of the material.
    Material,
    /// The time payload.
    Time,
    /// The size of the canvas.
    Resolution,
}

/// The bind groups, by how often their contents change.
#[derive(Copy, Clone, PartialEq, Eq, Structural, Debug)]
pub enum GroupKind {
    /// Rewritten every frame: time and resolution.
    Common,
    /// Rewritten with the camera: camera, model and light.
    Spatial,
    /// Rewritten with the material: texture, sampler and material.
    Texturing,
}

/// The shader stage that reads a binding.
#[derive(Copy, Clone, PartialEq, Eq, Structural, Debug)]
pub enum Stage {
    Vertex,
    Fragment,
}

/// The bytes of a run of 32-bit words: every word in turn, as four
/// little-endian bytes.
pub open spec fn le_words(words: Seq<u32>) -> Seq<u8>
    decreases words.len(),
{
    if words.len() == 0 {
        Seq::empty()
    } else {
        le_words(words.drop_last()) + spec_u32_to_le_bytes(words.last())
    }
}

/// A run of words takes four bytes per word.
pub proof fn lemma_le_words_len(words: Seq<u32>)
    ensures
        le_words(words).len() == 4 * words.len(),
    decreases words.len(),
{
    vstd::bytes::lemma_auto_spec_u32_to_from_le_bytes();
    if words.len() > 0 {
        lemma_le_words_len(words.drop_last());
    }
}

impl Ubo {
    /// The size of the buffer in bytes, as contracts speak of it.
    pub open spec fn size_of(self) -> nat {
        match self {
            Ubo::Camera => 64,
            Ubo::Model => 64,
            Ubo::Light => 32,
            Ubo::Material => 32,
            Ubo::Time => 16,
            Ubo::Resolution => 16,
        }
    }

    /// The bind group of the buffer, as contracts speak of it.
    pub open spec fn group_of(self) -> GroupKind {
        match self {
            Ubo::Time => GroupKind::Common,
            Ubo::Resolution => GroupKind::Common,
            Ubo::Camera => GroupKind::Spatial,
            Ubo::Model => GroupKind::Spatial,
            Ubo::Light => GroupKind::Spatial,
            Ubo::Material => GroupKind::Texturing,
        }
    }

    /// The binding of the buffer within its group, as contracts speak of it.
    pub open spec fn binding_of(self) -> nat {
        match self {
            Ubo::Time => 0,
            Ubo::Resolution => 1,
            Ubo::Camera => 0,
            Ubo::Model => 1,
            Ubo::Light => 2,
            Ubo::Material => 2,
        }
    }

    /// The stage that reads the buffer, as contracts speak of it.
    pub open spec fn stage_of(self) -> Stage {
        match self {
            Ubo::Camera => Stage::Vertex,
            Ubo::Model => Stage::Vertex,
            _ => Stage::Fragment,
        }
    }

    /// The size of the buffer in bytes. It is fixed when the buffer is
    /// created, and is the least size that its binding accepts.
    pub fn byte_size(self) -> (size: u64)
        ensures
            size == self.size_of(),
    {
        match self {
            Ubo::Camera => 64,
            Ubo::Model => 64,
            Ubo::Light => 32,
            Ubo::Material => 32,
            Ubo::Time => 16,
            Ubo::Resolution => 16,
        }
    }

    /// The bind group that holds the buffer.
    pub fn group(self) -> (group: GroupKind)
        ensures
            group == self.group_of(),
    {
        match self {
            Ubo::Time => GroupKind::Common,
            Ubo::Resolution => GroupKind::Common,
            Ubo::Camera => GroupKind::Spatial,
            Ubo::Model => GroupKind::Spatial,
            Ubo::Light => GroupKind::Spatial,
            Ubo::Material => GroupKind::Texturing,
        }
    }

    /// The binding of the buffer within its group.
    pub fn binding(self) -> (binding: u32)
        ensures
            binding == self.binding_of(),
    {
        match self {
            Ubo::Time => 0,
            Ubo::Resolution => 1,
            Ubo::Camera => 0,
            Ubo::Model => 1,
            Ubo::Light => 2,
            Ubo::Material => 2,
        }
    }

    /// The shader stage that reads the buffer.
    pub fn stage(self) -> (stage: Stage)
        ensures
            stage == self.stage_of(),
    {
        match self {
            Ubo::Camera => Stage::Vertex,
            Ubo::Model => Stage::Vertex,
            _ => Stage::Fragment,
        }
    }

    /// Whether `len` bytes written at `offset` stay within the buffer, whose
    /// size never changes.
    pub fn accepts(self, offset: u64, len: u64) -> (fits: bool)
        ensures
            fits == (offset + len <= self.size_of()),
    {
        let size = self.byte_size();
        offset <= size && len <= size - offset
    }
}

impl Ubo {
    /// The contents of the buffer for the given 32-bit words (the bit
    /// patterns of its numbers, in the order of its fields): their bytes,
    /// if they fill the buffer exactly, and nothing otherwise.
    pub fn encode(self, words: &Vec<u32>) -> (bytes: Option<Vec<u8>>)
        ensures
            bytes is Some <==> 4 * words@.len() == self.size_of(),
            bytes is Some ==> bytes->Some_0@ == le_words(words@),
            bytes is Some ==> bytes->Some_0@.len() == self.size_of(),
    {
        let n = words.len();
        if n > 16 || 4 * (n as u64) != self.byte_size() {
            return None;
        }
        let mut out: Vec<u8> = Vec::new();
        let mut i: usize = 0;
        while i < n
            invariant
                0 <= i <= n,
                n == words@.len(),
                out@ == le_words(words@.take(i as int)),
            decreases n - i,
        {
            let mut word = u32_to_le_bytes(words[i]);
            out.append(&mut word);
            i += 1;
            proof {
                assert(words@.take(i as int).drop_last() =~= words@.take(i - 1));
            }
        }
        proof {
            assert(words@.take(n as int) =~= words@);
            lemma_le_words_len(words@);
        }
        Some(out)
    }
}

/// The layout of the time payload is that of its four fields as words.
pub proof fn lemma_time_payload_words(payload: TimeUBO)
    ensures
        payload.layout() == le_words(
            seq![payload.millis, payload.secs, payload.dt_ms, payload.frame_id],
        ),
{
    reveal_with_fuel(le_words, 5);
}

/// Two different buffers of one bind group never share a binding.
pub proof fn lemma_bindings_distinct(a: Ubo, b: Ubo)
    requires
        a != b,
        a.group_of() == b.group_of(),
    ensures
        a.binding_of() != b.binding_of(),
{
}

/// The time payload fills its buffer exactly.
pub proof fn lemma_time_payload_fills_buffer(payload: TimeUBO)
    ensures
        payload.layout().len() == Ubo::Time.size_of(),
{
    vstd::bytes::lemma_auto_spec_u32_to_from_le_bytes();
}

} // verus!
