use vstd::prelude::*;

use vstd::bytes::{lemma_auto_spec_u32_to_from_le_bytes, spec_u32_to_le_bytes, u32_to_le_bytes};

use crate::addr::{Address, ADDRESS_LEN};
use crate::dispatch::{execute_tag, spec_execute_tag};
use crate::error::HookError;

verus! {

/// Number of bytes one encoded resolution-table entry occupies: a kind byte,
/// a 32-byte address configuration, and two flag bytes.
pub const ENTRY_LEN: usize = 35;

/// Number of bytes before the first entry: the 8-byte instruction tag that
/// versions the layout, a 4-byte little-endian byte length of what follows
/// the header, and a 4-byte little-endian entry count.
pub const HEADER_LEN: usize = 16;

/// Fixed number of spare bytes added to the computed storage size, to
/// tolerate encoding drift; readers must tolerate these trailing padding
/// bytes after the last entry.
pub const SAFETY_MARGIN: usize = 100;

/// Number of bytes available for an entry's packed seed references.
pub const SEED_CONFIG_LEN: usize = 32;

/// Kind-byte offset that marks an entry as a derive-with-seeds rule whose
/// deriving program stands at the encoded position of the invoking
/// instruction's account list.
pub const EXTERNAL_PDA_BASE: u8 = 128;

/// One item of the resolution table: either a literal address, or a rule
/// "derive an address from the program at `program_index` of the invoking
/// instruction's account list, seeded by the addresses at
/// `seed_account_indices` of that same list". The positions refer to the
/// transfer-hook invocation's account list, not to the call that builds the
/// table.
#[derive(Debug)]
pub enum MetaEntry {
    Literal { address: Address, is_signer: bool, is_writable: bool },
    ExternalPda {
        program_index: u8,
        seed_account_indices: Vec<u8>,
        is_signer: bool,
        is_writable: bool,
    },
}

impl MetaEntry {
    /// An entry is well formed when it fits the fixed-width encoding: a
    /// literal carries a 32-byte address; a derivation rule's program index
    /// stays under the kind-byte offset and its seed references fit the
    /// 32-byte configuration, two bytes each.
    pub open spec fn wf(&self) -> bool {
        match self {
            MetaEntry::Literal { address, .. } => address.wf(),
            MetaEntry::ExternalPda { program_index, seed_account_indices, .. } => {
                &&& *program_index < EXTERNAL_PDA_BASE
                &&& 2 * seed_account_indices@.len() <= SEED_CONFIG_LEN
            },
        }
    }
}

/// A flag byte: one for set, zero for clear.
pub open spec fn spec_bool_byte(b: bool) -> u8 {
    if b {
        1u8
    } else {
        0u8
    }
}

/// The packed form of a list of seed references: two bytes per reference, a
/// kind byte of 3 followed by the account position.
pub open spec fn spec_packed_seed_refs(indices: Seq<u8>) -> Seq<u8>
    decreases indices.len(),
{
    if indices.len() == 0 {
        Seq::empty()
    } else {
        spec_packed_seed_refs(indices.drop_last()) + seq![3u8, indices.last()]
    }
}

/// Packed seed references take two bytes per reference.
pub proof fn lemma_packed_seed_refs_len(indices: Seq<u8>)
    ensures
        spec_packed_seed_refs(indices).len() == 2 * indices.len(),
    decreases indices.len(),
{
    if indices.len() > 0 {
        lemma_packed_seed_refs_len(indices.drop_last());
    }
}

/// A full 32-byte address configuration: the packed seed references followed
/// by zero padding.
pub open spec fn spec_seed_config(indices: Seq<u8>) -> Seq<u8> {
    spec_packed_seed_refs(indices) + Seq::new(
        (SEED_CONFIG_LEN - 2 * indices.len()) as nat,
        |i: int| 0u8,
    )
}

/// The 35-byte encoding of one entry: the kind byte (zero for a literal, the
/// program position plus the derivation offset for a rule), the 32-byte
/// address or seed configuration, and the two flag bytes.
pub open spec fn spec_entry_bytes(e: MetaEntry) -> Seq<u8> {
    match e {
        MetaEntry::Literal { address, is_signer, is_writable } => seq![0u8] + address@ + seq![
            spec_bool_byte(is_signer),
            spec_bool_byte(is_writable),
        ],
        MetaEntry::ExternalPda { program_index, seed_account_indices, is_signer, is_writable } => seq![
            (program_index + EXTERNAL_PDA_BASE) as u8,
        ] + spec_seed_config(seed_account_indices@) + seq![
            spec_bool_byte(is_signer),
            spec_bool_byte(is_writable),
        ],
    }
}

/// A well-formed entry encodes to exactly 35 bytes.
pub proof fn lemma_entry_bytes_len(e: MetaEntry)
    requires
        e.wf(),
    ensures
        spec_entry_bytes(e).len() == ENTRY_LEN,
{
    match e {
        MetaEntry::Literal { .. } => {},
        MetaEntry::ExternalPda { seed_account_indices, .. } => {
            lemma_packed_seed_refs_len(seed_account_indices@);
        },
    }
}

/// The concatenated encodings of a list of entries.
pub open spec fn spec_entries_bytes(entries: Seq<MetaEntry>) -> Seq<u8>
    decreases entries.len(),
{
    if entries.len() == 0 {
        Seq::empty()
    } else {
        spec_entries_bytes(entries.drop_last()) + spec_entry_bytes(entries.last())
    }
}

/// Well-formed entries encode to 35 bytes each.
pub proof fn lemma_entries_bytes_len(entries: Seq<MetaEntry>)
    requires
        forall|i: int| 0 <= i < entries.len() ==> (#[trigger] entries[i]).wf(),
    ensures
        spec_entries_bytes(entries).len() == ENTRY_LEN * entries.len(),
    decreases entries.len(),
{
    if entries.len() > 0 {
        lemma_entries_bytes_len(entries.drop_last());
        lemma_entry_bytes_len(entries.last());
    }
}

/// The complete serialized resolution table: a self-describing, versioned
/// layout. The 8-byte execute tag identifies which instruction the entries
/// belong to, the 4-byte length and 4-byte count let a reader with a
/// different entry count reject cleanly, and the entries follow in order.
pub open spec fn spec_table_bytes(entries: Seq<MetaEntry>) -> Seq<u8> {
    spec_execute_tag() + spec_u32_to_le_bytes((4 + ENTRY_LEN * entries.len()) as u32)
        + spec_u32_to_le_bytes(entries.len() as u32) + spec_entries_bytes(entries)
}

/// The storage bytes the backing list needs for a given entry count, before
/// the safety margin: the 16-byte header plus 35 bytes per entry.
pub open spec fn spec_list_size(entry_count: nat) -> int {
    HEADER_LEN + ENTRY_LEN * entry_count
}

/// The storage bytes the resolution table is sized and funded for: the list
/// size plus the fixed safety margin.
pub open spec fn spec_required_size(entry_count: nat) -> int {
    spec_list_size(entry_count) + SAFETY_MARGIN
}

/// The required storage size grows strictly with the entry count.
pub proof fn lemma_required_size_strictly_monotonic(a: nat, b: nat)
    requires
        a < b,
    ensures
        spec_required_size(a) < spec_required_size(b),
{
    assert(ENTRY_LEN * a < ENTRY_LEN * b) by (nonlinear_arith)
        requires
            a < b,
    ;
}

/// Relies on spl_tlv_account_resolution::state::ExtraAccountMetaList::size_of:
/// it returns the type-length-value header (8 discriminator bytes and a
/// 4-byte length), a 4-byte count, and 35 bytes per entry, and only fails
/// when that sum overflows usize.
#[verifier::external_body]
fn list_size_of(entry_count: usize) -> (r: usize)
    requires
        HEADER_LEN + ENTRY_LEN * entry_count <= usize::MAX,
    ensures
        r == spec_list_size(entry_count as nat),
{
    spl_tlv_account_resolution::state::ExtraAccountMetaList::size_of(entry_count).unwrap()
}

/// The storage size, margin included, that a table of `entry_count` entries
/// is created with; rejects counts whose size cannot be represented.
pub fn required_table_size(entry_count: usize) -> (r: Result<usize, HookError>)
    ensures
        r is Ok <==> spec_required_size(entry_count as nat) <= usize::MAX,
        r matches Ok(s) ==> s == spec_required_size(entry_count as nat),
        r matches Err(e) ==> e == HookError::ArithmeticOverflow,
{
    let limit: usize = (usize::MAX - HEADER_LEN - SAFETY_MARGIN) / ENTRY_LEN;
    if entry_count > limit {
        proof {
            assert(ENTRY_LEN * entry_count + HEADER_LEN + SAFETY_MARGIN > usize::MAX)
                by (nonlinear_arith)
                requires
                    entry_count as int > (usize::MAX as int - HEADER_LEN as int
                        - SAFETY_MARGIN as int) / (ENTRY_LEN as int),
                    entry_count <= usize::MAX,
            ;
        }
        return Err(HookError::ArithmeticOverflow);
    }
    proof {
        assert(ENTRY_LEN * entry_count + HEADER_LEN + SAFETY_MARGIN <= usize::MAX)
            by (nonlinear_arith)
            requires
                entry_count as int <= (usize::MAX as int - HEADER_LEN as int
                    - SAFETY_MARGIN as int) / (ENTRY_LEN as int),
        ;
    }
    let base = list_size_of(entry_count);
    Ok(base + SAFETY_MARGIN)
}


/// Every entry of a list is well formed.
pub open spec fn spec_all_wf(entries: Seq<MetaEntry>) -> bool {
    forall|i: int| 0 <= i < entries.len() ==> (#[trigger] entries[i]).wf()
}

/// What one entry encodes to, or the error that rejects it: a literal whose
/// address is not 32 bytes, or a derivation rule that does not fit the
/// fixed-width configuration, cannot be encoded.
pub open spec fn spec_encode_entry(e: MetaEntry) -> Result<Seq<u8>, HookError> {
    match e {
        MetaEntry::Literal { .. } => if e.wf() {
            Ok(spec_entry_bytes(e))
        } else {
            Err(HookError::InvalidAddressLength)
        },
        MetaEntry::ExternalPda { .. } => if e.wf() {
            Ok(spec_entry_bytes(e))
        } else {
            Err(HookError::InvalidSeedConfiguration)
        },
    }
}

/// Encodes one entry into its fixed 35-byte form.
fn encode_entry(e: &MetaEntry) -> (r: Result<Vec<u8>, HookError>)
    ensures
        r is Ok <==> e.wf(),
        r matches Ok(b) ==> b@ == spec_entry_bytes(*e),
        r matches Err(err) ==> spec_encode_entry(*e) == Err::<Seq<u8>, HookError>(err),
{
    match e {
        MetaEntry::Literal { address, is_signer, is_writable } => {
            if address.as_bytes().len() != ADDRESS_LEN {
                return Err(HookError::InvalidAddressLength);
            }
            let mut out: Vec<u8> = Vec::new();
            out.push(0);
            let mut address_bytes = address.to_bytes_vec();
            out.append(&mut address_bytes);
            out.push(if *is_signer { 1 } else { 0 });
            out.push(if *is_writable { 1 } else { 0 });
            proof {
                assert(out@ =~= spec_entry_bytes(*e));
            }
            Ok(out)
        },
        MetaEntry::ExternalPda { program_index, seed_account_indices, is_signer, is_writable } => {
            if *program_index >= EXTERNAL_PDA_BASE {
                return Err(HookError::InvalidSeedConfiguration);
            }
            let seed_count = seed_account_indices.len();
            if seed_count > SEED_CONFIG_LEN / 2 {
                return Err(HookError::InvalidSeedConfiguration);
            }
            let mut out: Vec<u8> = Vec::new();
            out.push(*program_index + EXTERNAL_PDA_BASE);
            let ghost kind_byte: Seq<u8> = out@;
            let mut j: usize = 0;
            while j < seed_count
                invariant
                    j <= seed_count,
                    seed_count == seed_account_indices@.len(),
                    out@ == kind_byte + spec_packed_seed_refs(seed_account_indices@.take(j as int)),
                    kind_byte.len() == 1,
                decreases seed_count - j,
            {
                out.push(3);
                out.push(seed_account_indices[j]);
                proof {
                    let taken = seed_account_indices@.take(j + 1);
                    assert(taken.drop_last() =~= seed_account_indices@.take(j as int));
                    assert(out@ =~= kind_byte + spec_packed_seed_refs(taken));
                }
                j += 1;
            }
            proof {
                assert(seed_account_indices@.take(seed_count as int) =~= seed_account_indices@);
                lemma_packed_seed_refs_len(seed_account_indices@);
            }
            let mut written: usize = 2 * seed_count;
            while written < SEED_CONFIG_LEN
                invariant
                    2 * seed_count <= written <= SEED_CONFIG_LEN,
                    seed_count == seed_account_indices@.len(),
                    kind_byte.len() == 1,
                    out@ == kind_byte + spec_packed_seed_refs(seed_account_indices@) + Seq::new(
                        (written - 2 * seed_count) as nat,
                        |i: int| 0u8,
                    ),
                decreases SEED_CONFIG_LEN - written,
            {
                out.push(0);
                proof {
                    assert(out@ =~= kind_byte + spec_packed_seed_refs(seed_account_indices@)
                        + Seq::new((written + 1 - 2 * seed_count) as nat, |i: int| 0u8));
                }
                written += 1;
            }
            out.push(if *is_signer { 1 } else { 0 });
            out.push(if *is_writable { 1 } else { 0 });
            proof {
                assert(out@ =~= spec_entry_bytes(*e));
            }
            Ok(out)
        },
    }
}

/// Serializes a list of entries into the table's persisted byte layout.
pub fn encode_table(entries: &Vec<MetaEntry>) -> (r: Result<Vec<u8>, HookError>)
    requires
        4 + ENTRY_LEN * entries@.len() <= u32::MAX,
    ensures
        r is Ok <==> spec_all_wf(entries@),
        r matches Ok(b) ==> b@ == spec_table_bytes(entries@),
        r matches Err(e) ==> exists|i: int|
            0 <= i < entries@.len() && !(#[trigger] entries@[i]).wf() && spec_encode_entry(
                entries@[i],
            ) == Err::<Seq<u8>, HookError>(e),
{
    let n = entries.len();
    let mut out = execute_tag();
    let length_field: u32 = 4 + (ENTRY_LEN as u32) * (n as u32);
    let mut length_bytes = u32_to_le_bytes(length_field);
    out.append(&mut length_bytes);
    let mut count_bytes = u32_to_le_bytes(n as u32);
    out.append(&mut count_bytes);
    let ghost header: Seq<u8> = out@;
    proof {
        assert(header =~= spec_execute_tag() + spec_u32_to_le_bytes(
            (4 + ENTRY_LEN * entries@.len()) as u32,
        ) + spec_u32_to_le_bytes(entries@.len() as u32));
    }
    let mut i: usize = 0;
    while i < n
        invariant
            i <= n,
            n == entries@.len(),
            out@ == header + spec_entries_bytes(entries@.take(i as int)),
            forall|j: int| 0 <= j < i ==> (#[trigger] entries@[j]).wf(),
            header == spec_execute_tag() + spec_u32_to_le_bytes(
                (4 + ENTRY_LEN * entries@.len()) as u32,
            ) + spec_u32_to_le_bytes(entries@.len() as u32),
        decreases n - i,
    {
        let mut entry_bytes = match encode_entry(&entries[i]) {
            Ok(b) => b,
            Err(err) => {
                return Err(err);
            },
        };
        out.append(&mut entry_bytes);
        proof {
            let taken = entries@.take(i + 1);
            assert(taken.drop_last() =~= entries@.take(i as int));
            assert(out@ =~= header + spec_entries_bytes(taken));
        }
        i += 1;
    }
    proof {
        assert(entries@.take(n as int) =~= entries@);
    }
    Ok(out)
}

/// Position, in the transfer-hook invocation's account list, of the program
/// that the table's two derivation rules derive through.
pub const DERIVING_PROGRAM_INDEX: u8 = 6;

/// The current policy's table shape: exactly five entries - the mint as a
/// writable literal, the token-accounting program and the account-factory
/// program as read-only literals, and two writable derive-with-seeds rules
/// through the program at position 6 of the invoking instruction's account
/// list, seeded by the addresses at positions 7, 2, 5 and 3, 2, 5 of that
/// same list.
pub open spec fn spec_is_policy_table(
    entries: Seq<MetaEntry>,
    mint: Seq<u8>,
    token_program: Seq<u8>,
    factory_program: Seq<u8>,
) -> bool {
    &&& entries.len() == 5
    &&& (entries[0] matches MetaEntry::Literal { address, is_signer, is_writable } && address@
        == mint && !is_signer && is_writable)
    &&& (entries[1] matches MetaEntry::Literal { address, is_signer, is_writable } && address@
        == token_program && !is_signer && !is_writable)
    &&& (entries[2] matches MetaEntry::Literal { address, is_signer, is_writable } && address@
        == factory_program && !is_signer && !is_writable)
    &&& (entries[3] matches MetaEntry::ExternalPda {
        program_index,
        seed_account_indices,
        is_signer,
        is_writable,
    } && program_index == DERIVING_PROGRAM_INDEX && seed_account_indices@ == seq![7u8, 2u8, 5u8]
        && !is_signer && is_writable)
    &&& (entries[4] matches MetaEntry::ExternalPda {
        program_index,
        seed_account_indices,
        is_signer,
        is_writable,
    } && program_index == DERIVING_PROGRAM_INDEX && seed_account_indices@ == seq![3u8, 2u8, 5u8]
        && !is_signer && is_writable)
}

/// Builds the ordered entry list the current policy publishes for a mint.
pub fn build_resolution_table(
    mint: &Address,
    token_program: &Address,
    factory_program: &Address,
) -> (r: Vec<MetaEntry>)
    ensures
        spec_is_policy_table(r@, mint@, token_program@, factory_program@),
        mint.wf() && token_program.wf() && factory_program.wf() ==> spec_all_wf(r@),
{
    let mut entries: Vec<MetaEntry> = Vec::new();
    entries.push(
        MetaEntry::Literal { address: mint.duplicate(), is_signer: false, is_writable: true },
    );
    entries.push(
        MetaEntry::Literal {
            address: token_program.duplicate(),
            is_signer: false,
            is_writable: false,
        },
    );
    entries.push(
        MetaEntry::Literal {
            address: factory_program.duplicate(),
            is_signer: false,
            is_writable: false,
        },
    );
    let mut first_seeds: Vec<u8> = Vec::new();
    first_seeds.push(7);
    first_seeds.push(2);
    first_seeds.push(5);
    proof {
        assert(first_seeds@ =~= seq![7u8, 2u8, 5u8]);
    }
    entries.push(
        MetaEntry::ExternalPda {
            program_index: DERIVING_PROGRAM_INDEX,
            seed_account_indices: first_seeds,
            is_signer: false,
            is_writable: true,
        },
    );
    let mut second_seeds: Vec<u8> = Vec::new();
    second_seeds.push(3);
    second_seeds.push(2);
    second_seeds.push(5);
    proof {
        assert(second_seeds@ =~= seq![3u8, 2u8, 5u8]);
    }
    entries.push(
        MetaEntry::ExternalPda {
            program_index: DERIVING_PROGRAM_INDEX,
            seed_account_indices: second_seeds,
            is_signer: false,
            is_writable: true,
        },
    );
    entries
}

/// Everything a one-time table creation publishes: the entry list, the
/// storage size to allocate and fund, and the serialized account contents,
/// safety margin included as trailing zero padding.
#[derive(Debug)]
pub struct TablePlan {
    pub entries: Vec<MetaEntry>,
    pub account_size: usize,
    pub data: Vec<u8>,
}

/// The account identities the one-time table creation reads: the mint the
/// table is keyed by, the token-accounting program, and the
/// associated-account-factory program.
#[derive(Debug)]
pub struct InitializeExtraAccountMetaList {
    pub mint: Address,
    pub token_program: Address,
    pub associated_token_program: Address,
}

/// Plans the one-time creation of a mint's resolution table. The table is
/// created exactly once: when the derived storage address is already funded
/// or occupied the call fails and nothing is overwritten. Otherwise it
/// returns the five policy entries, the storage size for that entry count
/// plus the safety margin, and the serialized contents padded to that size.
pub fn initialize_extra_account_meta_list(
    accounts: &InitializeExtraAccountMetaList,
    table_occupied: bool,
) -> (r: Result<TablePlan, HookError>)
    requires
        accounts.mint.wf(),
        accounts.token_program.wf(),
        accounts.associated_token_program.wf(),
    ensures
        r is Err <==> table_occupied,
        r matches Err(e) ==> e == HookError::TableAlreadyOccupied,
        r matches Ok(plan) ==> {
            &&& spec_is_policy_table(
                plan.entries@,
                accounts.mint@,
                accounts.token_program@,
                accounts.associated_token_program@,
            )
            &&& plan.account_size == spec_required_size(5)
            &&& plan.data@ == spec_table_bytes(plan.entries@) + Seq::new(
                SAFETY_MARGIN as nat,
                |i: int| 0u8,
            )
            &&& plan.data@.len() == plan.account_size
        },
{
    if table_occupied {
        return Err(HookError::TableAlreadyOccupied);
    }
    let entries = build_resolution_table(
        &accounts.mint,
        &accounts.token_program,
        &accounts.associated_token_program,
    );
    let account_size = match required_table_size(entries.len()) {
        Ok(s) => s,
        Err(e) => {
            proof {
                assert(false);
            }
            return Err(e);
        },
    };
    let mut data = match encode_table(&entries) {
        Ok(b) => b,
        Err(e) => {
            proof {
                assert(false);
            }
            return Err(e);
        },
    };
    proof {
        lemma_auto_spec_u32_to_from_le_bytes();
        lemma_entries_bytes_len(entries@);
    }
    let ghost encoded: Seq<u8> = data@;
    let mut written = data.len();
    while written < account_size
        invariant
            encoded.len() <= written <= account_size,
            written == data@.len(),
            data@ == encoded + Seq::new((written - encoded.len()) as nat, |i: int| 0u8),
        decreases account_size - written,
    {
        data.push(0);
        proof {
            assert(data@ =~= encoded + Seq::new(
                (written + 1 - encoded.len()) as nat,
                |i: int| 0u8,
            ));
        }
        written += 1;
    }
    Ok(TablePlan { entries, account_size, data })
}


} // verus!
