//! Byte buffers placed at the alignment that their role demands, as the
//! translation module sees them in its linear memory.

use crate::artifacts::Role;
use vstd::prelude::*;

verus! {

/// The power-of-two boundary for a buffer of `role`: 256 bytes for the primary
/// weights, 64 bytes for the lexical table and the vocabularies.
pub open spec fn alignment_of(role: Role) -> nat {
    match role {
        Role::Weights => 256,
        Role::LexicalTable => 64,
        Role::SourceVocabulary => 64,
        Role::TargetVocabulary => 64,
    }
}

/// The boundary for a buffer of `role`.
pub fn alignment(role: Role) -> (boundary: usize)
    ensures
        boundary as nat == alignment_of(role),
{
    match role {
        Role::Weights => 256,
        Role::LexicalTable => 64,
        Role::SourceVocabulary => 64,
        Role::TargetVocabulary => 64,
    }
}

/// The least multiple of `boundary` that is not below `address`.
pub open spec fn aligned_up(address: nat, boundary: nat) -> nat
    recommends
        boundary > 0,
{
    if address % boundary == 0 {
        address
    } else {
        (address - address % boundary + boundary) as nat
    }
}

/// `aligned_up` is a multiple of the boundary, lies within one boundary above
/// the address, and no multiple of the boundary lies between the two.
pub proof fn lemma_aligned_up(address: nat, boundary: nat)
    requires
        boundary > 0,
    ensures
        aligned_up(address, boundary) % boundary == 0,
        address <= aligned_up(address, boundary) < address + boundary,
        forall|other: nat|
            address <= other && #[trigger] (other % boundary) == 0 ==> aligned_up(address, boundary)
                <= other,
{
    let b = boundary as int;
    let a = address as int;
    let r = a % b;
    let up = aligned_up(address, boundary) as int;
    vstd::arithmetic::div_mod::lemma_fundamental_div_mod(a, b);
    assert(up % b == 0 && a <= up < a + b) by {
        if r != 0 {
            vstd::arithmetic::div_mod::lemma_mod_multiples_basic(a / b + 1, b);
            assert(up == (a / b + 1) * b) by (nonlinear_arith)
                requires
                    up == a - r + b,
                    a == b * (a / b) + r,
            ;
        }
    }
    assert forall|other: nat| address <= other && #[trigger] (other % boundary) == 0 implies up
        <= other by {
        let o = other as int;
        vstd::arithmetic::div_mod::lemma_fundamental_div_mod(o, b);
        if r != 0 {
            assert(o / b > a / b) by (nonlinear_arith)
                requires
                    o == b * (o / b),
                    a == b * (a / b) + r,
                    0 < r < b,
                    a <= o,
            ;
            assert(o >= up) by (nonlinear_arith)
                requires
                    o == b * (o / b),
                    up == a - r + b,
                    a == b * (a / b) + r,
                    o / b >= a / b + 1,
                    b > 0,
            ;
        }
    }
}

/// Rounds `address` up to `boundary`; `None` where the result would not be an
/// address.
pub fn align_up(address: usize, boundary: usize) -> (placed: Option<usize>)
    requires
        boundary > 0,
    ensures
        placed == if aligned_up(address as nat, boundary as nat) <= usize::MAX {
            Some(aligned_up(address as nat, boundary as nat) as usize)
        } else {
            None
        },
{
    let over = address % boundary;
    if over == 0 {
        Some(address)
    } else {
        address.checked_add(boundary - over)
    }
}

/// The bytes to reserve for a buffer of `len` bytes of `role` so that it can
/// be placed aligned wherever the reservation begins.
pub open spec fn reservation_of(role: Role, len: nat) -> nat {
    (len + alignment_of(role) - 1) as nat
}

/// The bytes to reserve for `len` bytes of `role`; `None` where that is more
/// than a length can hold.
pub fn reservation(role: Role, len: usize) -> (bytes: Option<usize>)
    ensures
        bytes == if reservation_of(role, len as nat) <= usize::MAX {
            Some(reservation_of(role, len as nat) as usize)
        } else {
            None
        },
{
    len.checked_add(alignment(role) - 1)
}

/// The bytes of one artifact, at an address in the module's linear memory that
/// meets the alignment of its role. Immutable once constructed.
#[derive(Debug)]
pub struct AlignedBuffer {
    role: Role,
    address: usize,
    bytes: Vec<u8>,
}

impl AlignedBuffer {
    #[verifier::type_invariant]
    spec fn aligned(&self) -> bool {
        &&& self.address as nat % alignment_of(self.role) == 0
        &&& self.address + self.bytes@.len() <= usize::MAX
    }

    /// The role of the artifact.
    pub closed spec fn role_view(&self) -> Role {
        self.role
    }

    /// The address of the first byte.
    pub closed spec fn address_view(&self) -> nat {
        self.address as nat
    }

    /// The bytes held.
    pub closed spec fn view(&self) -> Seq<u8> {
        self.bytes@
    }

    /// Places `bytes` at the first address at or above `base` that meets the
    /// alignment of `role`. It fails only where the buffer would reach past
    /// the last address.
    pub fn place(role: Role, bytes: Vec<u8>, base: usize) -> (placed: Option<AlignedBuffer>)
        ensures
            match placed {
                Some(buffer) => buffer.role_view() == role && buffer@ == bytes@
                    && buffer.address_view() == aligned_up(base as nat, alignment_of(role))
                    && buffer.address_view() % alignment_of(role) == 0 && base
                    <= buffer.address_view() && buffer.address_view() + bytes@.len() <= base
                    + reservation_of(role, bytes@.len()),
                None => aligned_up(base as nat, alignment_of(role)) + bytes@.len() > usize::MAX,
            },
    {
        proof {
            lemma_aligned_up(base as nat, alignment_of(role));
        }
        match align_up(base, alignment(role)) {
            Some(address) => {
                if bytes.len() > usize::MAX - address {
                    None
                } else {
                    Some(AlignedBuffer { role, address, bytes })
                }
            },
            None => None,
        }
    }

    /// The role of the artifact.
    pub fn role(&self) -> (role: Role)
        ensures
            role == self.role_view(),
    {
        self.role
    }

    /// The boundary that the address meets: 256 for weights, 64 otherwise.
    pub fn alignment(&self) -> (boundary: usize)
        ensures
            boundary as nat == alignment_of(self.role_view()),
            self.address_view() % (boundary as nat) == 0,
    {
        proof {
            use_type_invariant(self);
        }
        alignment(self.role)
    }

    /// The address of the first byte, a multiple of the role's alignment.
    pub fn address(&self) -> (address: usize)
        ensures
            address as nat == self.address_view(),
            address as nat % alignment_of(self.role_view()) == 0,
    {
        proof {
            use_type_invariant(self);
        }
        self.address
    }

    /// The address behind the last byte.
    pub fn end(&self) -> (end: usize)
        ensures
            end as nat == self.address_view() + self@.len(),
    {
        proof {
            use_type_invariant(self);
        }
        self.address + self.bytes.len()
    }

    /// The number of bytes held.
    pub fn len(&self) -> (len: usize)
        ensures
            len as nat == self@.len(),
    {
        self.bytes.len()
    }

    /// The bytes held.
    pub fn bytes(&self) -> (bytes: &[u8])
        ensures
            bytes@ == self@,
    {
        self.bytes.as_slice()
    }
}

/// The decoding configuration that every model is constructed with.
pub open spec fn decoder_config_text() -> Seq<char> {
    "beam-size: 1\nnormalize: 1.0\nword-penalty: 0\nmax-length-break: 512\nmini-batch-words: 1024\nworkspace: 128\nmax-length-factor: 2.0\nskip-cost: true\ncpu-threads: 0\nquiet: true\nquiet-translation: true\ngemm-precision: int8shiftAlphaAll\nalignment: soft"@
}

/// The decoding configuration that every model is constructed with.
pub fn decoder_config() -> (config: &'static str)
    ensures
        config@ == decoder_config_text(),
{
    "beam-size: 1\nnormalize: 1.0\nword-penalty: 0\nmax-length-break: 512\nmini-batch-words: 1024\nworkspace: 128\nmax-length-factor: 2.0\nskip-cost: true\ncpu-threads: 0\nquiet: true\nquiet-translation: true\ngemm-precision: int8shiftAlphaAll\nalignment: soft"
}

/// The bytes of the four files of one model.
#[derive(Debug, PartialEq, Eq)]
pub struct ModelFiles {
    pub weights: Vec<u8>,
    pub lexical_table: Vec<u8>,
    pub source_vocabulary: Vec<u8>,
    pub target_vocabulary: Vec<u8>,
}

/// For each file of a model, the address at which the module has reserved
/// room for it.
#[derive(Debug, Clone, Copy, PartialEq, Eq)]
pub struct Reservations {
    pub weights: usize,
    pub lexical_table: usize,
    pub source_vocabulary: usize,
    pub target_vocabulary: usize,
}

/// What the script-side model constructor is invoked with.
#[derive(Debug)]
pub struct ModelArguments {
    pub source: String,
    pub target: String,
    pub config: String,
    pub weights: AlignedBuffer,
    pub lexical_table: AlignedBuffer,
    pub source_vocabulary: AlignedBuffer,
    pub target_vocabulary: AlignedBuffer,
}

/// Whether `buffer` holds `bytes` for `role`, placed at the first aligned
/// address of the reservation that begins at `base`.
pub open spec fn placed_at(buffer: AlignedBuffer, role: Role, bytes: Seq<u8>, base: usize) -> bool {
    &&& buffer.role_view() == role
    &&& buffer@ == bytes
    &&& buffer.address_view() == aligned_up(base as nat, alignment_of(role))
    &&& buffer.address_view() % alignment_of(role) == 0
}

/// Whether `bytes` of `role` fit when placed in the reservation at `base`.
pub open spec fn fits(role: Role, bytes: Seq<u8>, base: usize) -> bool {
    aligned_up(base as nat, alignment_of(role)) + bytes.len() <= usize::MAX
}

/// Assembles the arguments of the model constructor for the pair from
/// `source` to `target`: the two codes, the decoding configuration, and the
/// four files, each placed at the alignment of its role in its reservation.
/// It fails only where a file would reach past the last address.
pub fn model_arguments(source: &str, target: &str, files: ModelFiles, at: Reservations) -> (arguments:
    Option<ModelArguments>)
    ensures
        match arguments {
            Some(model) => {
                &&& model.source@ == source@
                &&& model.target@ == target@
                &&& model.config@ == decoder_config_text()
                &&& placed_at(model.weights, Role::Weights, files.weights@, at.weights)
                &&& placed_at(
                    model.lexical_table,
                    Role::LexicalTable,
                    files.lexical_table@,
                    at.lexical_table,
                )
                &&& placed_at(
                    model.source_vocabulary,
                    Role::SourceVocabulary,
                    files.source_vocabulary@,
                    at.source_vocabulary,
                )
                &&& placed_at(
                    model.target_vocabulary,
                    Role::TargetVocabulary,
                    files.target_vocabulary@,
                    at.target_vocabulary,
                )
            },
            None => !(fits(Role::Weights, files.weights@, at.weights) && fits(
                Role::LexicalTable,
                files.lexical_table@,
                at.lexical_table,
            ) && fits(Role::SourceVocabulary, files.source_vocabulary@, at.source_vocabulary)
                && fits(Role::TargetVocabulary, files.target_vocabulary@, at.target_vocabulary)),
        },
{
    let weights = match AlignedBuffer::place(Role::Weights, files.weights, at.weights) {
        Some(buffer) => buffer,
        None => {
            return None;
        },
    };
    let lexical_table = match AlignedBuffer::place(
        Role::LexicalTable,
        files.lexical_table,
        at.lexical_table,
    ) {
        Some(buffer) => buffer,
        None => {
            return None;
        },
    };
    let source_vocabulary = match AlignedBuffer::place(
        Role::SourceVocabulary,
        files.source_vocabulary,
        at.source_vocabulary,
    ) {
        Some(buffer) => buffer,
        None => {
            return None;
        },
    };
    let target_vocabulary = match AlignedBuffer::place(
        Role::TargetVocabulary,
        files.target_vocabulary,
        at.target_vocabulary,
    ) {
        Some(buffer) => buffer,
        None => {
            return None;
        },
    };
    Some(
        ModelArguments {
            source: source.to_owned(),
            target: target.to_owned(),
            config: decoder_config().to_owned(),
            weights,
            lexical_table,
            source_vocabulary,
            target_vocabulary,
        },
    )
}

} // verus!
