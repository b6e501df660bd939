//! The multisig-creation flow.
//!
//! One instruction targeting the squads program is assembled from the
//! caller's account, a fresh creation key, and a validated name and
//! description. The instruction arguments are laid out in the schema-tagged
//! binary form: fields in declared order, fixed-width integers little-endian,
//! lists and byte strings prefixed by a four-byte little-endian length.

use vstd::bytes::lemma_auto_spec_u16_to_from_le_bytes;
use vstd::bytes::lemma_auto_spec_u32_to_from_le_bytes;
use vstd::bytes::spec_u16_from_le_bytes;
use vstd::bytes::spec_u16_to_le_bytes;
use vstd::bytes::spec_u32_from_le_bytes;
use vstd::bytes::spec_u32_to_le_bytes;
use vstd::prelude::*;
use vstd::slice::slice_subrange;
use vstd::slice::slice_to_vec;
use vstd::string::StrSliceExecFns;
use vstd::utf8::encode_utf8;

use crate::address::clone_bytes;
use crate::address::find_program_address;
use crate::address::parse_address;
use crate::address::parsed_address;
use crate::address::seeds_view;
use crate::address::spec_find_pda;
use crate::address::Address;
use crate::address::Derived;
use crate::address::DerivedView;
use crate::codec::push_u16_le;
use crate::codec::push_u32_le;
use crate::codec::read_u16_le;
use crate::codec::read_u32_le;
use crate::error::ActionError;
use crate::ids::spec_squads_program_id;
use crate::ids::spec_system_program_id;
use crate::ids::squads_program_id;
use crate::ids::system_program_id;
use crate::instruction::readonly;
use crate::instruction::writable;
use crate::instruction::AccountRole;
use crate::instruction::Instruction;
use crate::instruction::InstructionView;
use crate::json::metadata_json;
use crate::json::lemma_metadata_json_len;
use crate::json::spec_metadata_json;
use crate::transaction::assemble;
use crate::transaction::ActionTransaction;
use crate::transaction::InstructionPlan;

verus! {

/// The human-readable metadata of a squad, serialized to JSON text inside
/// the creation arguments.
pub struct SquadsMetadata {
    pub name: String,
    pub description: String,
    pub image: String,
}

impl SquadsMetadata {
    /// Serializes the record as the JSON object text
    /// `{"name":…,"description":…,"image":…}` over the fields' UTF-8 bytes.
    pub fn to_json(&self) -> (r: Vec<u8>)
        ensures
            r@ == spec_metadata_json(
                encode_utf8(self.name@),
                encode_utf8(self.description@),
                encode_utf8(self.image@),
            ),
    {
        let name = self.name.as_str().as_bytes_vec();
        let description = self.description.as_str().as_bytes_vec();
        let image = self.image.as_str().as_bytes_vec();
        metadata_json(&name, &description, &image)
    }
}

/// The argument record of the creation call: approval threshold, creation
/// key, member list, and the metadata JSON bytes.
pub struct CreateInstructionArgs {
    pub threshold: u16,
    pub create_key: Address,
    pub members: Vec<Address>,
    pub meta: Vec<u8>,
}

/// The mathematical value of a creation argument record.
#[verifier::ext_equal]
pub struct CreateArgsView {
    pub threshold: u16,
    pub create_key: Seq<u8>,
    pub members: Seq<Seq<u8>>,
    pub meta: Seq<u8>,
}

impl View for CreateInstructionArgs {
    type V = CreateArgsView;

    open spec fn view(&self) -> CreateArgsView {
        CreateArgsView {
            threshold: self.threshold,
            create_key: self.create_key@,
            members: self.members@.map_values(|a: Address| a@),
            meta: self.meta@,
        }
    }
}

/// A well-formed record holds 32-byte addresses.
pub open spec fn create_args_view_wf(v: CreateArgsView) -> bool {
    &&& v.create_key.len() == 32
    &&& forall|i: int| 0 <= i < v.members.len() ==> (#[trigger] v.members[i]).len() == 32
}

impl CreateInstructionArgs {
    pub open spec fn wf(&self) -> bool {
        create_args_view_wf(self@)
    }
}

/// The member list on the wire: each 32-byte address in order, no framing
/// between elements.
pub open spec fn spec_encode_members(members: Seq<Seq<u8>>) -> Seq<u8>
    decreases members.len(),
{
    if members.len() == 0 {
        Seq::empty()
    } else {
        members[0] + spec_encode_members(members.drop_first())
    }
}

/// Encoding one more member appends its bytes.
pub proof fn lemma_encode_members_push(members: Seq<Seq<u8>>, m: Seq<u8>)
    ensures
        spec_encode_members(members.push(m)) == spec_encode_members(members) + m,
    decreases members.len(),
{
    if members.len() == 0 {
        assert(members.push(m).drop_first() =~= Seq::<Seq<u8>>::empty());
        assert(members.push(m)[0] == m);
        assert(spec_encode_members(members.push(m)) == m + spec_encode_members(
            Seq::<Seq<u8>>::empty(),
        ));
        assert(spec_encode_members(members.push(m)) =~= spec_encode_members(members) + m);
    } else {
        lemma_encode_members_push(members.drop_first(), m);
        assert(members.push(m).drop_first() =~= members.drop_first().push(m));
        assert(members.push(m)[0] == members[0]);
        assert(spec_encode_members(members.push(m)) =~= spec_encode_members(members) + m);
    }
}

/// The member-list encoding of 32-byte addresses is 32 bytes per member.
pub proof fn lemma_encode_members_len(members: Seq<Seq<u8>>)
    requires
        forall|i: int| 0 <= i < members.len() ==> (#[trigger] members[i]).len() == 32,
    ensures
        spec_encode_members(members).len() == 32 * members.len(),
    decreases members.len(),
{
    if members.len() > 0 {
        lemma_encode_members_len(members.drop_first());
    }
}

/// A record can be encoded when its list lengths fit the four-byte prefix.
pub open spec fn create_args_encodable(v: CreateArgsView) -> bool {
    &&& v.members.len() <= u32::MAX
    &&& v.meta.len() <= u32::MAX
}

/// The schema-tagged wire form of a creation argument record: threshold
/// (two bytes little-endian), creation key (32 raw bytes), member count
/// (four bytes little-endian) and the members, then the metadata length
/// (four bytes little-endian) and the metadata bytes.
pub open spec fn spec_encode_create_args(v: CreateArgsView) -> Seq<u8> {
    spec_u16_to_le_bytes(v.threshold) + v.create_key + spec_u32_to_le_bytes(
        v.members.len() as u32,
    ) + spec_encode_members(v.members) + spec_u32_to_le_bytes(v.meta.len() as u32) + v.meta
}

/// Serializes a creation argument record. Byte-for-byte deterministic; a
/// record whose member list or metadata cannot carry a four-byte length
/// prefix is refused whole, with no partial output.
pub fn encode_create_args(args: &CreateInstructionArgs) -> (r: Result<Vec<u8>, ActionError>)
    requires
        args.wf(),
    ensures
        r matches Ok(bytes) ==> create_args_encodable(args@) && bytes@ == spec_encode_create_args(
            args@,
        ),
        r matches Err(e) ==> e == ActionError::EncodingFailure && !create_args_encodable(args@),
{
    if args.members.len() > u32::MAX as usize || args.meta.len() > u32::MAX as usize {
        return Err(ActionError::EncodingFailure);
    }
    let ghost mview = args.members@.map_values(|a: Address| a@);
    let mut out: Vec<u8> = Vec::new();
    push_u16_le(&mut out, args.threshold);
    let mut ck = clone_bytes(&args.create_key.bytes);
    out.append(&mut ck);
    push_u32_le(&mut out, args.members.len() as u32);
    let ghost prefix = out@;
    let mut i: usize = 0;
    while i < args.members.len()
        invariant
            i <= args.members@.len(),
            mview == args.members@.map_values(|a: Address| a@),
            out@ == prefix + spec_encode_members(mview.take(i as int)),
        decreases args.members@.len() - i,
    {
        let mut mb = clone_bytes(&args.members[i].bytes);
        out.append(&mut mb);
        proof {
            lemma_encode_members_push(mview.take(i as int), mview[i as int]);
            assert(mview.take(i + 1) =~= mview.take(i as int).push(mview[i as int]));
        }
        i += 1;
    }
    proof {
        assert(mview.take(args.members@.len() as int) =~= mview);
    }
    push_u32_le(&mut out, args.meta.len() as u32);
    let mut mt = clone_bytes(&args.meta);
    out.append(&mut mt);
    proof {
        assert(out@ =~= spec_encode_create_args(args@));
    }
    Ok(out)
}

/// Reads `n` members of 32 bytes each from the front of `bytes`, returning
/// them with the unread remainder, or nothing when the bytes run out.
pub open spec fn spec_decode_members(bytes: Seq<u8>, n: nat) -> Option<(Seq<Seq<u8>>, Seq<u8>)>
    decreases n,
{
    if n == 0 {
        Some((Seq::empty(), bytes))
    } else if bytes.len() < 32 {
        None
    } else {
        match spec_decode_members(bytes.skip(32), (n - 1) as nat) {
            Some(p) => Some((seq![bytes.take(32)] + p.0, p.1)),
            None => None,
        }
    }
}

/// Parses the schema-tagged wire form back into a record: the layout of
/// [`spec_encode_create_args`], with every byte of the input consumed.
pub open spec fn spec_decode_create_args(bytes: Seq<u8>) -> Option<CreateArgsView> {
    if bytes.len() < 38 {
        None
    } else {
        let threshold = spec_u16_from_le_bytes(bytes.subrange(0, 2));
        let create_key = bytes.subrange(2, 34);
        let n = spec_u32_from_le_bytes(bytes.subrange(34, 38));
        match spec_decode_members(bytes.skip(38), n as nat) {
            Some(p) => {
                let rest = p.1;
                if rest.len() < 4 {
                    None
                } else {
                    let m = spec_u32_from_le_bytes(rest.subrange(0, 4));
                    if rest.len() - 4 == m {
                        Some(
                            CreateArgsView {
                                threshold,
                                create_key,
                                members: p.0,
                                meta: rest.skip(4),
                            },
                        )
                    } else {
                        None
                    }
                }
            },
            None => None,
        }
    }
}

/// Reads `n` members of 32 bytes each starting at `offset`.
fn decode_members(data: &[u8], offset: usize, n: u32) -> (r: Option<(Vec<Address>, usize)>)
    requires
        offset <= data@.len(),
    ensures
        r matches Some(p) ==> {
            &&& spec_decode_members(data@.skip(offset as int), n as nat) == Some(
                (p.0@.map_values(|a: Address| a@), data@.skip(p.1 as int)),
            )
            &&& offset <= p.1 <= data@.len()
            &&& forall|i: int| 0 <= i < p.0@.len() ==> (#[trigger] p.0@[i]).wf()
        },
        r is None ==> spec_decode_members(data@.skip(offset as int), n as nat) is None,
    decreases n,
{
    if n == 0 {
        let v: Vec<Address> = Vec::new();
        proof {
            assert(v@.map_values(|a: Address| a@) =~= Seq::<Seq<u8>>::empty());
        }
        Some((v, offset))
    } else if data.len() - offset < 32 {
        None
    } else {
        let key_bytes = slice_to_vec(slice_subrange(data, offset, offset + 32));
        let addr = Address::from_bytes(key_bytes);
        match decode_members(data, offset + 32, n - 1) {
            Some((mut rest, end)) => {
                let ghost rest0 = rest@;
                let mut v: Vec<Address> = Vec::new();
                v.push(addr);
                v.append(&mut rest);
                proof {
                    assert(data@.skip(offset as int).take(32) =~= data@.subrange(
                        offset as int,
                        offset + 32,
                    ));
                    assert(data@.skip(offset as int).skip(32) =~= data@.skip(offset + 32));
                    assert(v@ =~= seq![addr] + rest0);
                    let f = |a: Address| a@;
                    assert(v@.map_values(f).len() == 1 + rest0.len());
                    assert(v@.map_values(f)[0] == addr@);
                    assert forall|i: int| 0 <= i < rest0.len() implies v@.map_values(f)[i + 1]
                        == rest0.map_values(f)[i] by {
                        assert(v@[i + 1] == rest0[i]);
                    }
                    assert(v@.map_values(f) =~= seq![data@.skip(offset as int).take(32)]
                        + rest0.map_values(f));
                }
                Some((v, end))
            },
            None => {
                proof {
                    assert(data@.skip(offset as int).skip(32) =~= data@.skip(offset + 32));
                }
                None
            },
        }
    }
}

/// Deserializes the schema-tagged wire form of a creation argument record,
/// failing on any byte string the encoder cannot have produced.
pub fn decode_create_args(data: &[u8]) -> (r: Result<CreateInstructionArgs, ActionError>)
    ensures
        r matches Ok(args) ==> spec_decode_create_args(data@) == Some(args@) && args.wf(),
        r matches Err(e) ==> e == ActionError::EncodingFailure && spec_decode_create_args(data@)
            is None,
{
    if data.len() < 38 {
        return Err(ActionError::EncodingFailure);
    }
    let threshold = read_u16_le(data, 0);
    let create_key = Address::from_bytes(slice_to_vec(slice_subrange(data, 2, 34)));
    let n = read_u32_le(data, 34);
    match decode_members(data, 38, n) {
        Some((members, end)) => {
            proof {
                assert(data@.skip(end as int).len() == data@.len() - end);
            }
            if data.len() - end < 4 {
                return Err(ActionError::EncodingFailure);
            }
            let m = read_u32_le(data, end);
            proof {
                assert(data@.skip(end as int).subrange(0, 4) =~= data@.subrange(
                    end as int,
                    end + 4,
                ));
            }
            if (data.len() - end) - 4 != m as usize {
                return Err(ActionError::EncodingFailure);
            }
            let meta = slice_to_vec(slice_subrange(data, end + 4, data.len()));
            let args = CreateInstructionArgs { threshold, create_key, members, meta };
            proof {
                assert(data@.skip(end as int).skip(4) =~= data@.subrange(
                    end + 4,
                    data@.len() as int,
                ));
                assert(spec_decode_create_args(data@) == Some(args@)) by {
                    assert(args@ =~= spec_decode_create_args(data@)->Some_0);
                }
            }
            Ok(args)
        },
        None => Err(ActionError::EncodingFailure),
    }
}

/// Reading back an encoded member list recovers it, leaving the tail unread.
proof fn lemma_members_round_trip(members: Seq<Seq<u8>>, tail: Seq<u8>)
    requires
        forall|i: int| 0 <= i < members.len() ==> (#[trigger] members[i]).len() == 32,
    ensures
        spec_decode_members(spec_encode_members(members) + tail, members.len()) == Some(
            (members, tail),
        ),
    decreases members.len(),
{
    if members.len() == 0 {
        assert(spec_encode_members(members) + tail =~= tail);
    } else {
        let enc = spec_encode_members(members) + tail;
        assert(spec_encode_members(members) == members[0] + spec_encode_members(
            members.drop_first(),
        ));
        assert(enc =~= members[0] + (spec_encode_members(members.drop_first()) + tail));
        lemma_encode_members_len(members.drop_first());
        assert(enc.len() >= 32);
        assert(enc.take(32) =~= members[0]);
        assert(enc.skip(32) =~= spec_encode_members(members.drop_first()) + tail);
        lemma_members_round_trip(members.drop_first(), tail);
        assert(seq![enc.take(32)] + members.drop_first() =~= members);
    }
}

/// The argument codec round-trips: decoding the encoding of any well-formed
/// record within the declared bounds recovers exactly that record.
pub proof fn lemma_create_args_round_trip(v: CreateArgsView)
    requires
        create_args_view_wf(v),
        create_args_encodable(v),
    ensures
        spec_decode_create_args(spec_encode_create_args(v)) == Some(v),
{
    lemma_auto_spec_u16_to_from_le_bytes();
    lemma_auto_spec_u32_to_from_le_bytes();
    let bytes = spec_encode_create_args(v);
    let a = spec_u16_to_le_bytes(v.threshold);
    let c = spec_u32_to_le_bytes(v.members.len() as u32);
    let d = spec_encode_members(v.members);
    let e = spec_u32_to_le_bytes(v.meta.len() as u32);
    assert(a.len() == 2 && c.len() == 4 && e.len() == 4);
    lemma_encode_members_len(v.members);
    assert(bytes.len() >= 42);
    assert(bytes.subrange(0, 2) =~= a);
    assert(spec_u16_from_le_bytes(a) == v.threshold);
    assert(bytes.subrange(2, 34) =~= v.create_key);
    assert(bytes.subrange(34, 38) =~= c);
    assert(spec_u32_from_le_bytes(c) == v.members.len() as u32);
    let rest_tail = e + v.meta;
    assert(bytes.skip(38) =~= d + rest_tail);
    lemma_members_round_trip(v.members, rest_tail);
    assert(spec_decode_members(bytes.skip(38), v.members.len()) == Some((v.members, rest_tail)));
    assert(rest_tail.len() >= 4);
    assert(rest_tail.subrange(0, 4) =~= e);
    assert(spec_u32_from_le_bytes(e) == v.meta.len() as u32);
    assert(rest_tail.len() - 4 == v.meta.len());
    assert(rest_tail.skip(4) =~= v.meta);
    assert(spec_decode_create_args(bytes) == Some(
        CreateArgsView {
            threshold: v.threshold,
            create_key: v.create_key,
            members: v.members,
            meta: v.meta,
        },
    ));
    assert(CreateArgsView {
        threshold: v.threshold,
        create_key: v.create_key,
        members: v.members,
        meta: v.meta,
    } =~= v);
}

} // verus!

verus! {

/// The fixed eight-byte discriminant of the squads creation call.
pub open spec fn spec_create_discriminant() -> Seq<u8> {
    seq![24, 30, 200, 40, 5, 28, 7, 119]
}

/// The first derivation seed of a squad account: the bytes of `squad`.
pub open spec fn spec_squad_seed() -> Seq<u8> {
    seq![115, 113, 117, 97, 100]
}

/// The last derivation seed of a squad account: the bytes of `multisig`.
pub open spec fn spec_multisig_seed() -> Seq<u8> {
    seq![109, 117, 108, 116, 105, 115, 105, 103]
}

/// The seed list of a squad account: `squad`, the creation key, `multisig`.
pub open spec fn spec_squads_seeds(create_key: Seq<u8>) -> Seq<Seq<u8>> {
    seq![spec_squad_seed(), create_key, spec_multisig_seed()]
}

/// The argument record of one creation call: threshold one, the creation
/// key, the caller as only member, and the metadata JSON built from the
/// name and description with an empty image.
pub open spec fn spec_create_args(
    account: Seq<u8>,
    create_key: Seq<u8>,
    name: Seq<char>,
    description: Seq<char>,
) -> CreateArgsView {
    CreateArgsView {
        threshold: 1,
        create_key,
        members: seq![account],
        meta: spec_metadata_json(encode_utf8(name), encode_utf8(description), Seq::empty()),
    }
}

/// The creation instruction: it targets the squads program, writes to the
/// derived squad account and to the signing caller, reads the system
/// program, and carries the fixed discriminant followed by the encoded
/// arguments.
pub open spec fn spec_create_instruction(
    account: Seq<u8>,
    create_key: Seq<u8>,
    squads_key: Seq<u8>,
    name: Seq<char>,
    description: Seq<char>,
) -> InstructionView {
    InstructionView {
        program_id: spec_squads_program_id(),
        accounts: seq![
            writable(squads_key, false),
            writable(account, true),
            readonly(spec_system_program_id(), false),
        ],
        data: spec_create_discriminant() + spec_encode_create_args(
            spec_create_args(account, create_key, name, description),
        ),
    }
}

/// What a successful creation returns: one instruction, targeting the squad
/// account derived from the creation key, and the fixed status message.
pub open spec fn spec_create_success(
    account: Seq<u8>,
    create_key: Seq<u8>,
    name: Seq<char>,
    description: Seq<char>,
    t: ActionTransaction,
) -> bool {
    &&& spec_find_pda(spec_squads_seeds(create_key), spec_squads_program_id(), 255)
        matches DerivedView::Found(squads_key, _)
        && t.transaction.instructions@.len() == 1
        && t.transaction.instructions@[0]@ == spec_create_instruction(
            account,
            create_key,
            squads_key,
            name,
            description,
        )
    &&& t.message matches Some(m) && m@ == "Multisig successfully created!"@
}

/// Builds the whole creation transaction for a given caller and creation
/// key: it validates the name (at most 36 bytes) and description (at most
/// 64 bytes), derives the squad account, encodes the arguments and wraps
/// the single instruction. Deterministic in all of its inputs.
pub fn build_create_transaction(
    account: &Address,
    create_key: &Address,
    name: &str,
    description: &str,
) -> (r: Result<ActionTransaction, ActionError>)
    requires
        account.wf(),
        create_key.wf(),
    ensures
        r matches Ok(t) ==> encode_utf8(name@).len() <= 36 && encode_utf8(description@).len()
            <= 64 && spec_create_success(account@, create_key@, name@, description@, t),
        r matches Err(e) ==> {
            ||| e == ActionError::InvalidNameLength && encode_utf8(name@).len() > 36
            ||| (e == ActionError::InvalidDescriptionLength && encode_utf8(name@).len() <= 36
                && encode_utf8(description@).len() > 64)
            ||| (e == ActionError::AddressDerivationFailure && encode_utf8(name@).len() <= 36
                && encode_utf8(description@).len() <= 64 && spec_find_pda(
                spec_squads_seeds(create_key@),
                spec_squads_program_id(),
                255,
            ) is Exhausted)
        },
{
    let name_bytes = name.as_bytes_vec();
    if name_bytes.len() > 36 {
        return Err(ActionError::InvalidNameLength);
    }
    let description_bytes = description.as_bytes_vec();
    if description_bytes.len() > 64 {
        return Err(ActionError::InvalidDescriptionLength);
    }
    let metadata = SquadsMetadata {
        name: name.to_owned(),
        description: description.to_owned(),
        image: String::new(),
    };
    let meta = metadata.to_json();
    proof {
        assert(encode_utf8(Seq::<char>::empty()) =~= Seq::<u8>::empty());
    }
    let mut seeds: Vec<Vec<u8>> = Vec::new();
    let squad: Vec<u8> = vec![115, 113, 117, 97, 100];
    proof {
        assert(squad@ =~= spec_squad_seed());
    }
    seeds.push(squad);
    seeds.push(clone_bytes(&create_key.bytes));
    let multisig: Vec<u8> = vec![109, 117, 108, 116, 105, 115, 105, 103];
    proof {
        assert(multisig@ =~= spec_multisig_seed());
    }
    seeds.push(multisig);
    proof {
        assert(seeds_view(seeds@) =~= spec_squads_seeds(create_key@));
    }
    let program = squads_program_id();
    let squads_key = match find_program_address(&seeds, &program) {
        Derived::Found(a, _) => a,
        Derived::Exhausted => {
            return Err(ActionError::AddressDerivationFailure);
        },
    };
    let ghost sk = squads_key@;
    let mut members: Vec<Address> = Vec::new();
    members.push(account.clone());
    let args = CreateInstructionArgs {
        threshold: 1,
        create_key: create_key.clone(),
        members,
        meta,
    };
    proof {
        assert(args@.members =~= seq![account@]);
        assert(args@ =~= spec_create_args(account@, create_key@, name@, description@));
    }
    let encoded = match encode_create_args(&args) {
        Ok(b) => b,
        Err(_) => {
            proof {
                lemma_metadata_json_len(
                    encode_utf8(name@),
                    encode_utf8(description@),
                    Seq::empty(),
                );
                assert(false);
            }
            return Err(ActionError::EncodingFailure);
        },
    };
    let mut accounts: Vec<AccountRole> = Vec::new();
    accounts.push(AccountRole::new(squads_key, false));
    accounts.push(AccountRole::new(account.clone(), true));
    accounts.push(AccountRole::new_readonly(system_program_id(), false));
    let mut data: Vec<u8> = vec![24, 30, 200, 40, 5, 28, 7, 119];
    proof {
        assert(data@ =~= spec_create_discriminant());
    }
    let mut enc = encoded;
    data.append(&mut enc);
    let ix = Instruction { program_id: squads_program_id(), accounts, data };
    proof {
        assert(ix@.accounts =~= spec_create_instruction(
            account@,
            create_key@,
            sk,
            name@,
            description@,
        ).accounts);
        assert(ix@ =~= spec_create_instruction(account@, create_key@, sk, name@, description@));
    }
    let mut primary: Vec<Instruction> = Vec::new();
    primary.push(ix);
    let plan = InstructionPlan {
        prerequisite: Vec::new(),
        conditional_init: None,
        external_pre: None,
        external_setup: Vec::new(),
        primary,
        external_cleanup: None,
    };
    let ghost gplan = plan;
    let message = "Multisig successfully created!".to_owned();
    match assemble(plan, Some(message)) {
        Ok(t) => {
            proof {
                assert(crate::transaction::spec_plan_order(gplan) =~= seq![
                    t.transaction.instructions@[0],
                ]);
            }
            Ok(t)
        },
        Err(_) => {
            proof {
                assert(crate::transaction::spec_plan_order(gplan).len() == 1);
                assert(false);
            }
            Err(ActionError::AssemblyFailure)
        },
    }
}

/// Relies on `rand::random`: a fresh 32-byte creation key drawn from the
/// thread-local generator; nothing is promised of its value.
#[verifier::external_body]
fn random_address() -> (r: Address)
    ensures
        r.wf(),
{
    Address { bytes: rand::random::<[u8; 32]>().to_vec() }
}

/// Assembles the multisig-creation transaction for the calling account: the
/// account string is parsed, the name and description validated, a fresh
/// creation key drawn, and the single creation instruction wrapped into an
/// unsigned transaction with a status message.
pub fn create(account: &str, name: &str, description: &str) -> (r: Result<
    ActionTransaction,
    ActionError,
>)
    ensures
        r matches Ok(t) ==> {
            &&& parsed_address(account@) is Some
            &&& encode_utf8(name@).len() <= 36
            &&& encode_utf8(description@).len() <= 64
            &&& exists|ck: Seq<u8>|
                ck.len() == 32 && #[trigger] spec_create_success(
                    parsed_address(account@)->Some_0,
                    ck,
                    name@,
                    description@,
                    t,
                )
        },
        r matches Err(e) ==> {
            ||| e == ActionError::InvalidAccountPublicKey && parsed_address(account@) is None
            ||| (e == ActionError::InvalidNameLength && parsed_address(account@) is Some
                && encode_utf8(name@).len() > 36)
            ||| (e == ActionError::InvalidDescriptionLength && parsed_address(account@) is Some
                && encode_utf8(name@).len() <= 36 && encode_utf8(description@).len() > 64)
            ||| (e == ActionError::AddressDerivationFailure && parsed_address(account@) is Some
                && encode_utf8(name@).len() <= 36 && encode_utf8(description@).len() <= 64
                && exists|ck: Seq<u8>|
                ck.len() == 32 && #[trigger] spec_find_pda(
                    spec_squads_seeds(ck),
                    spec_squads_program_id(),
                    255,
                ) is Exhausted)
        },
{
    let acc = match parse_address(account) {
        Some(a) => a,
        None => {
            return Err(ActionError::InvalidAccountPublicKey);
        },
    };
    let create_key = random_address();
    let r = build_create_transaction(&acc, &create_key, name, description);
    match r {
        Ok(t) => {
            proof {
                assert(create_key@.len() == 32);
                assert(parsed_address(account@)->Some_0 == acc@);
                assert(spec_create_success(
                    parsed_address(account@)->Some_0,
                    create_key@,
                    name@,
                    description@,
                    t,
                ));
            }
            Ok(t)
        },
        Err(e) => {
            proof {
                if e == ActionError::AddressDerivationFailure {
                    assert(spec_find_pda(
                        spec_squads_seeds(create_key@),
                        spec_squads_program_id(),
                        255,
                    ) is Exhausted);
                }
            }
            Err(e)
        },
    }
}

} // verus!
