use vstd::prelude::*;

use crate::hashing::sha256;
use crate::hashing::sha256_of;

verus! {

// ─────────────────────────────────────────────────────────────────────────────
// Program lowering: turns an Anchor-style program description into a
// Pinocchio-style one — explicit account indices, signer/writable/PDA
// validations, Anchor-compatible instruction discriminators, and raw field
// offsets for state structs. Identifiers and expressions are carried as
// ASCII byte strings; instruction bodies pass through untouched.
// ─────────────────────────────────────────────────────────────────────────────

/// Options for the lowering.
pub struct Config {
    pub no_alloc: bool,
    pub lazy_entrypoint: bool,
    pub inline_cpi: bool,
    pub anchor_compat: bool,
}

/// How an account is declared.
#[derive(Clone, Copy, Debug, PartialEq, Eq, Structural)]
pub enum AccountKind {
    Signer,
    Account,
    Program,
}

/// A field or argument type, as far as the lowering distinguishes them.
#[derive(Clone, Copy, Debug, PartialEq, Eq, Structural)]
pub enum FieldTy {
    Bool,
    U8,
    I8,
    U16,
    I16,
    U32,
    I32,
    U64,
    I64,
    U128,
    I128,
    Address,
    Other,
}

/// A constraint on a declared account.
#[derive(Clone, Debug)]
pub enum Constraint {
    Mutable,
    Init,
    Seeds(Vec<u8>),
    Bump(Option<Vec<u8>>),
    Custom { expr: Vec<u8>, error: Option<Vec<u8>> },
}

/// A declared account within an accounts struct.
#[derive(Clone, Debug)]
pub struct AnchorAccount {
    pub name: Vec<u8>,
    pub kind: AccountKind,
    pub constraints: Vec<Constraint>,
}

/// An accounts struct: the accounts one instruction takes.
#[derive(Clone, Debug)]
pub struct AnchorAccountStruct {
    pub name: Vec<u8>,
    pub accounts: Vec<AnchorAccount>,
}

/// A named, typed field or argument.
#[derive(Clone, Debug)]
pub struct FieldDef {
    pub name: Vec<u8>,
    pub ty: FieldTy,
}

/// An instruction of the source program.
#[derive(Clone, Debug)]
pub struct AnchorInstruction {
    pub name: Vec<u8>,
    pub accounts_struct: Vec<u8>,
    pub args: Vec<FieldDef>,
    pub body: Vec<u8>,
}

/// A state struct of the source program.
#[derive(Clone, Debug)]
pub struct AnchorStateStruct {
    pub name: Vec<u8>,
    pub fields: Vec<FieldDef>,
}

/// An error variant of the source program.
#[derive(Clone, Debug)]
pub struct AnchorError {
    pub name: Vec<u8>,
    pub code: Option<u32>,
    pub msg: Vec<u8>,
}

/// The source program.
#[derive(Clone, Debug)]
pub struct AnchorProgram {
    pub name: Vec<u8>,
    pub program_id: Vec<u8>,
    pub instructions: Vec<AnchorInstruction>,
    pub account_structs: Vec<AnchorAccountStruct>,
    pub state_structs: Vec<AnchorStateStruct>,
    pub errors: Vec<AnchorError>,
}

/// An account known to be derived from seeds.
#[derive(Clone, Debug)]
pub struct PdaInfo {
    pub account_name: Vec<u8>,
    pub seeds: Vec<u8>,
}

/// A precomputed size for a state struct.
#[derive(Clone, Debug)]
pub struct SizeInfo {
    pub struct_name: Vec<u8>,
    pub size: u64,
}

/// Facts gathered about the source program.
#[derive(Clone, Debug)]
pub struct ProgramAnalysis {
    pub pdas: Vec<PdaInfo>,
    pub account_sizes: Vec<SizeInfo>,
}

/// The lowering options the output program keeps.
#[derive(Clone, Copy, Debug, PartialEq, Eq, Structural)]
pub struct PinocchioConfig {
    pub no_alloc: bool,
    pub lazy_entrypoint: bool,
    pub anchor_compat: bool,
}

/// A lowered account: its position and its access flags.
#[derive(Clone, Debug)]
pub struct PinocchioAccount {
    pub name: Vec<u8>,
    pub index: usize,
    pub is_signer: bool,
    pub is_writable: bool,
    pub is_pda: bool,
    pub pda_seeds: Option<Vec<u8>>,
}

/// A lowered validation step.
#[derive(Clone, Debug)]
pub enum Validation {
    IsSigner { account_idx: usize },
    IsWritable { account_idx: usize },
    PdaCheck { account_idx: usize, seeds: Vec<u8>, bump: Option<Vec<u8>> },
    Custom { expr: Vec<u8>, error: Option<Vec<u8>> },
}

/// A lowered instruction.
#[derive(Clone, Debug)]
pub struct PinocchioInstruction {
    pub name: Vec<u8>,
    pub discriminator: Vec<u8>,
    pub accounts: Vec<PinocchioAccount>,
    pub args: Vec<FieldDef>,
    pub validations: Vec<Validation>,
    pub body: Vec<u8>,
}

/// A lowered state field with its raw offset.
#[derive(Clone, Debug)]
pub struct PinocchioField {
    pub name: Vec<u8>,
    pub ty: FieldTy,
    pub size: u64,
    pub offset: u128,
}

/// A lowered state struct.
#[derive(Clone, Debug)]
pub struct PinocchioState {
    pub name: Vec<u8>,
    pub size: u64,
    pub fields: Vec<PinocchioField>,
}

/// A lowered error variant.
#[derive(Clone, Debug)]
pub struct PinocchioError {
    pub name: Vec<u8>,
    pub code: u32,
    pub msg: Vec<u8>,
}

/// The lowered program.
#[derive(Clone, Debug)]
pub struct PinocchioProgram {
    pub name: Vec<u8>,
    pub program_id: Vec<u8>,
    pub config: PinocchioConfig,
    pub instructions: Vec<PinocchioInstruction>,
    pub state_structs: Vec<PinocchioState>,
    pub errors: Vec<PinocchioError>,
}

/// The `Option<Vec<u8>>` seen through its bytes.
pub open spec fn view_opt(o: Option<Vec<u8>>) -> Option<Seq<u8>> {
    match o {
        None => None,
        Some(v) => Some(v@),
    }
}

/// A copy of a byte string, holding the same bytes.
pub fn clone_bytes(v: &Vec<u8>) -> (r: Vec<u8>)
    ensures
        r@ == v@,
{
    let r = v.clone();
    proof {
        assert(r@ =~= v@);
    }
    r
}

/// A copy of an optional byte string, holding the same bytes.
pub fn clone_opt_bytes(v: &Option<Vec<u8>>) -> (r: Option<Vec<u8>>)
    ensures
        view_opt(r) == view_opt(*v),
{
    match v {
        Some(b) => Some(clone_bytes(b)),
        None => None,
    }
}

/// Whether two byte strings hold the same bytes.
pub fn bytes_eq(a: &[u8], b: &[u8]) -> (r: bool)
    ensures
        r == (a@ == b@),
{
    if a.len() != b.len() {
        return false;
    }
    let mut i: usize = 0;
    while i < a.len()
        invariant
            i <= a@.len(),
            a@.len() == b@.len(),
            forall|j: int| 0 <= j < i ==> a@[j] == b@[j],
        decreases a@.len() - i,
    {
        if a[i] != b[i] {
            return false;
        }
        i = i + 1;
    }
    proof {
        assert(a@ =~= b@);
    }
    true
}

// ───────────────────────────── snake case ────────────────────────────────────

/// Whether `c` is an ASCII capital letter.
pub open spec fn spec_is_upper(c: u8) -> bool {
    65 <= c <= 90
}

/// The first `n` bytes of `s`, lowered to snake case: a capital becomes its
/// small letter, preceded by an underscore unless it opens the string.
pub open spec fn spec_snake_prefix(s: Seq<u8>, n: int) -> Seq<u8>
    decreases n,
{
    if n <= 0 {
        Seq::empty()
    } else {
        let prior = spec_snake_prefix(s, n - 1);
        let c = s[n - 1];
        if spec_is_upper(c) {
            if n - 1 > 0 {
                prior + seq![95u8, (c + 32) as u8]
            } else {
                prior + seq![(c + 32) as u8]
            }
        } else {
            prior + seq![c]
        }
    }
}

/// `s` lowered to snake case.
pub open spec fn spec_snake_case(s: Seq<u8>) -> Seq<u8> {
    spec_snake_prefix(s, s.len() as int)
}

/// Lowers an ASCII identifier to snake case.
pub fn to_snake_case(s: &[u8]) -> (r: Vec<u8>)
    ensures
        r@ == spec_snake_case(s@),
{
    let mut out: Vec<u8> = Vec::new();
    let mut i: usize = 0;
    while i < s.len()
        invariant
            i <= s@.len(),
            out@ == spec_snake_prefix(s@, i as int),
        decreases s@.len() - i,
    {
        let c: u8 = s[i];
        if 65 <= c && c <= 90 {
            if i > 0 {
                out.push(95);
            }
            out.push(c + 32);
        } else {
            out.push(c);
        }
        proof {
            assert(out@ =~= spec_snake_prefix(s@, i + 1));
        }
        i = i + 1;
    }
    out
}

// ─────────────────────────── discriminators ─────────────────────────────────

/// The bytes an Anchor-compatible discriminator hashes: `global:` followed by
/// the instruction's snake-case name.
pub open spec fn spec_discriminator_preimage(name: Seq<u8>) -> Seq<u8> {
    seq![103u8, 108u8, 111u8, 98u8, 97u8, 108u8, 58u8] + spec_snake_case(name)
}

/// The Anchor-compatible discriminator: the first eight bytes of the SHA-256
/// digest of the preimage.
pub open spec fn spec_anchor_discriminator(name: Seq<u8>) -> Seq<u8> {
    sha256_of(spec_discriminator_preimage(name)).subrange(0, 8)
}

/// The eight-byte instruction discriminator Anchor derives from a name.
pub fn anchor_discriminator(name: &[u8]) -> (r: Vec<u8>)
    ensures
        r@ == spec_anchor_discriminator(name@),
{
    let mut preimage: Vec<u8> = Vec::new();
    preimage.push(103);
    preimage.push(108);
    preimage.push(111);
    preimage.push(98);
    preimage.push(97);
    preimage.push(108);
    preimage.push(58);
    let snake: Vec<u8> = to_snake_case(name);
    let mut i: usize = 0;
    while i < snake.len()
        invariant
            i <= snake@.len(),
            snake@ == spec_snake_case(name@),
            preimage@ == seq![103u8, 108u8, 111u8, 98u8, 97u8, 108u8, 58u8] + snake@.subrange(
                0,
                i as int,
            ),
        decreases snake@.len() - i,
    {
        preimage.push(snake[i]);
        proof {
            assert(snake@.subrange(0, i + 1) =~= snake@.subrange(0, i as int) + seq![
                snake@[i as int],
            ]);
            assert(preimage@ =~= seq![103u8, 108u8, 111u8, 98u8, 97u8, 108u8, 58u8]
                + snake@.subrange(0, i + 1));
        }
        i = i + 1;
    }
    proof {
        assert(snake@.subrange(0, snake@.len() as int) =~= snake@);
        assert(preimage@ =~= spec_discriminator_preimage(name@));
    }
    let digest: [u8; 32] = sha256(preimage.as_slice());
    let mut out: Vec<u8> = Vec::new();
    let mut j: usize = 0;
    while j < 8
        invariant
            j <= 8,
            digest@ == sha256_of(spec_discriminator_preimage(name@)),
            out@ == digest@.subrange(0, j as int),
        decreases 8 - j,
    {
        out.push(digest[j]);
        proof {
            assert(digest@.subrange(0, j + 1) =~= digest@.subrange(0, j as int) + seq![
                digest@[j as int],
            ]);
            assert(out@ =~= digest@.subrange(0, j + 1));
        }
        j = j + 1;
    }
    out
}

// ──────────────────────────── field sizes ────────────────────────────────────

/// The raw byte size the lowering assumes for a field type. Anything it does
/// not recognise is carried at the address width of 32.
pub open spec fn spec_field_size(ty: FieldTy) -> int {
    match ty {
        FieldTy::Bool => 1,
        FieldTy::U8 => 1,
        FieldTy::I8 => 1,
        FieldTy::U16 => 2,
        FieldTy::I16 => 2,
        FieldTy::U32 => 4,
        FieldTy::I32 => 4,
        FieldTy::U64 => 8,
        FieldTy::I64 => 8,
        FieldTy::U128 => 16,
        FieldTy::I128 => 16,
        FieldTy::Address => 32,
        FieldTy::Other => 32,
    }
}

/// The raw byte size of one field.
pub fn estimate_field_size(ty: FieldTy) -> (r: u64)
    ensures
        r == spec_field_size(ty),
        1 <= r <= 32,
{
    match ty {
        FieldTy::Bool => 1,
        FieldTy::U8 => 1,
        FieldTy::I8 => 1,
        FieldTy::U16 => 2,
        FieldTy::I16 => 2,
        FieldTy::U32 => 4,
        FieldTy::I32 => 4,
        FieldTy::U64 => 8,
        FieldTy::I64 => 8,
        FieldTy::U128 => 16,
        FieldTy::I128 => 16,
        FieldTy::Address => 32,
        FieldTy::Other => 32,
    }
}

/// The raw offset of field `k`: an eight-byte discriminator, then the sizes
/// of the fields before it.
pub open spec fn spec_field_offset(fields: Seq<FieldDef>, k: int) -> int
    decreases k,
{
    if k <= 0 {
        8
    } else {
        spec_field_offset(fields, k - 1) + spec_field_size(fields[k - 1].ty)
    }
}

// ──────────────────────────── name lookups ───────────────────────────────────

/// The position of the first seed-derived account named `name`, from `i` on.
pub open spec fn spec_find_pda(pdas: Seq<PdaInfo>, name: Seq<u8>, i: int) -> Option<int>
    decreases pdas.len() - i,
{
    if i < 0 || i >= pdas.len() {
        None
    } else if pdas[i].account_name@ == name {
        Some(i)
    } else {
        spec_find_pda(pdas, name, i + 1)
    }
}

fn find_pda(pdas: &Vec<PdaInfo>, name: &Vec<u8>) -> (r: Option<usize>)
    ensures
        match r {
            Some(k) => k < pdas@.len() && spec_find_pda(pdas@, name@, 0) == Some(k as int),
            None => spec_find_pda(pdas@, name@, 0) is None,
        },
{
    let mut i: usize = 0;
    while i < pdas.len()
        invariant
            i <= pdas@.len(),
            spec_find_pda(pdas@, name@, 0) == spec_find_pda(pdas@, name@, i as int),
        decreases pdas@.len() - i,
    {
        if bytes_eq(pdas[i].account_name.as_slice(), name.as_slice()) {
            return Some(i);
        }
        i = i + 1;
    }
    None
}

/// The position of the first recorded size for a struct named `name`.
pub open spec fn spec_find_size(sizes: Seq<SizeInfo>, name: Seq<u8>, i: int) -> Option<int>
    decreases sizes.len() - i,
{
    if i < 0 || i >= sizes.len() {
        None
    } else if sizes[i].struct_name@ == name {
        Some(i)
    } else {
        spec_find_size(sizes, name, i + 1)
    }
}

fn find_size(sizes: &Vec<SizeInfo>, name: &Vec<u8>) -> (r: Option<usize>)
    ensures
        match r {
            Some(k) => k < sizes@.len() && spec_find_size(sizes@, name@, 0) == Some(k as int),
            None => spec_find_size(sizes@, name@, 0) is None,
        },
{
    let mut i: usize = 0;
    while i < sizes.len()
        invariant
            i <= sizes@.len(),
            spec_find_size(sizes@, name@, 0) == spec_find_size(sizes@, name@, i as int),
        decreases sizes@.len() - i,
    {
        if bytes_eq(sizes[i].struct_name.as_slice(), name.as_slice()) {
            return Some(i);
        }
        i = i + 1;
    }
    None
}

/// The position of the first accounts struct named `name`.
pub open spec fn spec_find_struct(structs: Seq<AnchorAccountStruct>, name: Seq<u8>, i: int) -> Option<
    int,
>
    decreases structs.len() - i,
{
    if i < 0 || i >= structs.len() {
        None
    } else if structs[i].name@ == name {
        Some(i)
    } else {
        spec_find_struct(structs, name, i + 1)
    }
}

fn find_struct(structs: &Vec<AnchorAccountStruct>, name: &Vec<u8>) -> (r: Option<usize>)
    ensures
        match r {
            Some(k) => k < structs@.len() && spec_find_struct(structs@, name@, 0) == Some(k as int),
            None => spec_find_struct(structs@, name@, 0) is None,
        },
{
    let mut i: usize = 0;
    while i < structs.len()
        invariant
            i <= structs@.len(),
            spec_find_struct(structs@, name@, 0) == spec_find_struct(structs@, name@, i as int),
        decreases structs@.len() - i,
    {
        if bytes_eq(structs[i].name.as_slice(), name.as_slice()) {
            return Some(i);
        }
        i = i + 1;
    }
    None
}

// ──────────────────────── constraint inspection ─────────────────────────────

/// Whether this constraint makes the account writable: declared mutable, or
/// initialised here.
pub open spec fn is_write_constraint(c: Constraint) -> bool {
    match c {
        Constraint::Mutable => true,
        Constraint::Init => true,
        _ => false,
    }
}

/// Whether this constraint declares the account mutable.
pub open spec fn is_mut_constraint(c: Constraint) -> bool {
    match c {
        Constraint::Mutable => true,
        _ => false,
    }
}

/// Whether any constraint makes the account writable.
pub open spec fn spec_has_write(cs: Seq<Constraint>) -> bool {
    exists|k: int| 0 <= k < cs.len() && is_write_constraint(#[trigger] cs[k])
}

fn has_write_constraint(cs: &Vec<Constraint>) -> (r: bool)
    ensures
        r == spec_has_write(cs@),
{
    let mut i: usize = 0;
    while i < cs.len()
        invariant
            i <= cs@.len(),
            forall|k: int| 0 <= k < i ==> !is_write_constraint(#[trigger] cs@[k]),
        decreases cs@.len() - i,
    {
        match cs[i] {
            Constraint::Mutable => {
                return true;
            },
            Constraint::Init => {
                return true;
            },
            _ => {},
        }
        i = i + 1;
    }
    false
}

/// Whether any constraint declares the account mutable.
pub open spec fn spec_has_mut(cs: Seq<Constraint>) -> bool {
    exists|k: int| 0 <= k < cs.len() && is_mut_constraint(#[trigger] cs[k])
}

fn has_mut_constraint(cs: &Vec<Constraint>) -> (r: bool)
    ensures
        r == spec_has_mut(cs@),
{
    let mut i: usize = 0;
    while i < cs.len()
        invariant
            i <= cs@.len(),
            forall|k: int| 0 <= k < i ==> !is_mut_constraint(#[trigger] cs@[k]),
        decreases cs@.len() - i,
    {
        match cs[i] {
            Constraint::Mutable => {
                return true;
            },
            _ => {},
        }
        i = i + 1;
    }
    false
}

/// The bump expression of the first bump constraint, if that constraint
/// names one.
pub open spec fn spec_first_bump(cs: Seq<Constraint>, i: int) -> Option<Seq<u8>>
    decreases cs.len() - i,
{
    if i < 0 || i >= cs.len() {
        None
    } else {
        match cs[i] {
            Constraint::Bump(o) => view_opt(o),
            _ => spec_first_bump(cs, i + 1),
        }
    }
}

fn find_first_bump(cs: &Vec<Constraint>) -> (r: Option<Vec<u8>>)
    ensures
        view_opt(r) == spec_first_bump(cs@, 0),
{
    let mut i: usize = 0;
    while i < cs.len()
        invariant
            i <= cs@.len(),
            spec_first_bump(cs@, 0) == spec_first_bump(cs@, i as int),
        decreases cs@.len() - i,
    {
        match &cs[i] {
            Constraint::Bump(o) => {
                return clone_opt_bytes(o);
            },
            _ => {},
        }
        i = i + 1;
    }
    None
}

// ───────────────────────────── accounts ─────────────────────────────────────

/// How a lowered account relates to its declaration: same name, its position
/// as index, the signer flag from its kind, the writable flag from its
/// constraints, and the seed derivation carried over where the analysis
/// knows one.
pub open spec fn account_lowered(
    acc: AnchorAccount,
    idx: int,
    analysis: ProgramAnalysis,
    out: PinocchioAccount,
) -> bool {
    &&& out.name@ == acc.name@
    &&& out.index == idx
    &&& out.is_signer == (acc.kind == AccountKind::Signer)
    &&& out.is_writable == spec_has_write(acc.constraints@)
    &&& match spec_find_pda(analysis.pdas@, acc.name@, 0) {
        Some(k) => out.is_pda && view_opt(out.pda_seeds) == Some(analysis.pdas@[k].seeds@),
        None => !out.is_pda && out.pda_seeds is None,
    }
}

fn transform_account(acc: &AnchorAccount, index: usize, analysis: &ProgramAnalysis) -> (out:
    PinocchioAccount)
    ensures
        account_lowered(*acc, index as int, *analysis, out),
{
    let is_signer: bool = match acc.kind {
        AccountKind::Signer => true,
        _ => false,
    };
    let is_writable: bool = has_write_constraint(&acc.constraints);
    let pda: Option<usize> = find_pda(&analysis.pdas, &acc.name);
    match pda {
        Some(k) => PinocchioAccount {
            name: clone_bytes(&acc.name),
            index,
            is_signer,
            is_writable,
            is_pda: true,
            pda_seeds: Some(clone_bytes(&analysis.pdas[k].seeds)),
        },
        None => PinocchioAccount {
            name: clone_bytes(&acc.name),
            index,
            is_signer,
            is_writable,
            is_pda: false,
            pda_seeds: None,
        },
    }
}

// ──────────────────────────── validations ───────────────────────────────────

/// The ghost shape of one validation step, over byte sequences.
pub enum ValidationModel {
    IsSigner { account_idx: int },
    IsWritable { account_idx: int },
    PdaCheck { account_idx: int, seeds: Seq<u8>, bump: Option<Seq<u8>> },
    Custom { expr: Seq<u8>, error: Option<Seq<u8>> },
}

/// Whether a built validation has the shape the model calls for.
pub open spec fn validation_matches(v: Validation, m: ValidationModel) -> bool {
    match m {
        ValidationModel::IsSigner { account_idx } => v matches Validation::IsSigner {
            account_idx: vi,
        } && vi == account_idx,
        ValidationModel::IsWritable { account_idx } => v matches Validation::IsWritable {
            account_idx: vi,
        } && vi == account_idx,
        ValidationModel::PdaCheck { account_idx, seeds, bump } => v matches Validation::PdaCheck {
            account_idx: vi,
            seeds: vs,
            bump: vb,
        } && vi == account_idx && vs@ == seeds && view_opt(vb) == bump,
        ValidationModel::Custom { expr, error } => v matches Validation::Custom {
            expr: ve,
            error: verr,
        } && ve@ == expr && view_opt(verr) == error,
    }
}

/// Whether a built validation list follows the model step for step.
pub open spec fn validations_match(vs: Seq<Validation>, ms: Seq<ValidationModel>) -> bool {
    &&& vs.len() == ms.len()
    &&& forall|k: int| 0 <= k < vs.len() ==> validation_matches(vs[k], ms[k])
}

/// The validation steps one constraint contributes: a seed constraint asks
/// for a derivation check against the account's first bump expression, and a
/// custom constraint is carried over unchanged.
pub open spec fn spec_constraint_validations(
    c: Constraint,
    idx: int,
    bump: Option<Seq<u8>>,
) -> Seq<ValidationModel> {
    match c {
        Constraint::Seeds(s) => seq![
            ValidationModel::PdaCheck { account_idx: idx, seeds: s@, bump },
        ],
        Constraint::Custom { expr, error } => seq![
            ValidationModel::Custom { expr: expr@, error: view_opt(error) },
        ],
        _ => Seq::empty(),
    }
}

/// The validation steps of the first `n` constraints of one account.
pub open spec fn spec_constraints_upto(
    cs: Seq<Constraint>,
    n: int,
    idx: int,
    bump: Option<Seq<u8>>,
) -> Seq<ValidationModel>
    decreases n,
{
    if n <= 0 {
        Seq::empty()
    } else {
        spec_constraints_upto(cs, n - 1, idx, bump) + spec_constraint_validations(
            cs[n - 1],
            idx,
            bump,
        )
    }
}

/// The validation steps one account contributes: a signer check for a
/// signer, a writable check where a constraint declares it mutable, then its
/// constraints' steps in order.
pub open spec fn spec_account_validations(acc: AnchorAccount, idx: int) -> Seq<ValidationModel> {
    let signer_part: Seq<ValidationModel> = if acc.kind == AccountKind::Signer {
        seq![ValidationModel::IsSigner { account_idx: idx }]
    } else {
        Seq::empty()
    };
    let writable_part: Seq<ValidationModel> = if spec_has_mut(acc.constraints@) {
        seq![ValidationModel::IsWritable { account_idx: idx }]
    } else {
        Seq::empty()
    };
    signer_part + writable_part + spec_constraints_upto(
        acc.constraints@,
        acc.constraints@.len() as int,
        idx,
        spec_first_bump(acc.constraints@, 0),
    )
}

/// The validation steps of the first `n` accounts.
pub open spec fn spec_validations_upto(accounts: Seq<AnchorAccount>, n: int) -> Seq<
    ValidationModel,
>
    decreases n,
{
    if n <= 0 {
        Seq::empty()
    } else {
        spec_validations_upto(accounts, n - 1) + spec_account_validations(accounts[n - 1], n - 1)
    }
}

fn generate_validations(account_struct: &AnchorAccountStruct, analysis: &ProgramAnalysis) -> (out:
    Vec<Validation>)
    ensures
        validations_match(
            out@,
            spec_validations_upto(
                account_struct.accounts@,
                account_struct.accounts@.len() as int,
            ),
        ),
{
    let mut out: Vec<Validation> = Vec::new();
    let mut i: usize = 0;
    while i < account_struct.accounts.len()
        invariant
            i <= account_struct.accounts@.len(),
            validations_match(out@, spec_validations_upto(account_struct.accounts@, i as int)),
        decreases account_struct.accounts@.len() - i,
    {
        let acc = &account_struct.accounts[i];
        let ghost before: Seq<ValidationModel> = spec_validations_upto(
            account_struct.accounts@,
            i as int,
        );
        let is_signer: bool = match acc.kind {
            AccountKind::Signer => true,
            _ => false,
        };
        if is_signer {
            out.push(Validation::IsSigner { account_idx: i });
        }
        if has_mut_constraint(&acc.constraints) {
            out.push(Validation::IsWritable { account_idx: i });
        }
        let bump: Option<Vec<u8>> = find_first_bump(&acc.constraints);
        let ghost mid: Seq<ValidationModel> = before + (if acc.kind == AccountKind::Signer {
            seq![ValidationModel::IsSigner { account_idx: i as int }]
        } else {
            Seq::empty()
        }) + (if spec_has_mut(acc.constraints@) {
            seq![ValidationModel::IsWritable { account_idx: i as int }]
        } else {
            Seq::empty()
        });
        proof {
            assert(validations_match(out@, mid));
        }
        let mut ci: usize = 0;
        while ci < acc.constraints.len()
            invariant
                ci <= acc.constraints@.len(),
                view_opt(bump) == spec_first_bump(acc.constraints@, 0),
                validations_match(
                    out@,
                    mid + spec_constraints_upto(
                        acc.constraints@,
                        ci as int,
                        i as int,
                        spec_first_bump(acc.constraints@, 0),
                    ),
                ),
            decreases acc.constraints@.len() - ci,
        {
            match &acc.constraints[ci] {
                Constraint::Seeds(s) => {
                    out.push(
                        Validation::PdaCheck {
                            account_idx: i,
                            seeds: clone_bytes(s),
                            bump: clone_opt_bytes(&bump),
                        },
                    );
                },
                Constraint::Custom { expr, error } => {
                    out.push(
                        Validation::Custom {
                            expr: clone_bytes(expr),
                            error: clone_opt_bytes(error),
                        },
                    );
                },
                _ => {},
            }
            ci = ci + 1;
        }
        proof {
            assert(spec_validations_upto(account_struct.accounts@, i + 1) == before
                + spec_account_validations(account_struct.accounts@[i as int], i as int));
        }
        i = i + 1;
    }
    out
}

// ─────────────────────── instructions and programs ──────────────────────────

/// How a lowered instruction relates to its source: same name, arguments and
/// body; an Anchor-compatible discriminator (or a zeroed one); its accounts
/// lowered in declaration order; and the validations its accounts struct
/// calls for. An instruction whose accounts struct is missing is lowered
/// with no accounts.
pub open spec fn instruction_lowered(
    inst: AnchorInstruction,
    program: AnchorProgram,
    analysis: ProgramAnalysis,
    anchor_compat: bool,
    out: PinocchioInstruction,
) -> bool {
    let accs: Seq<AnchorAccount> = match spec_find_struct(
        program.account_structs@,
        inst.accounts_struct@,
        0,
    ) {
        Some(k) => program.account_structs@[k].accounts@,
        None => Seq::empty(),
    };
    &&& out.name@ == inst.name@
    &&& (anchor_compat ==> out.discriminator@ == spec_anchor_discriminator(inst.name@))
    &&& (!anchor_compat ==> out.discriminator@ == seq![0u8, 0u8, 0u8, 0u8, 0u8, 0u8, 0u8, 0u8])
    &&& out.args@.len() == inst.args@.len()
    &&& forall|k: int|
        0 <= k < inst.args@.len() ==> out.args@[k].name@ == inst.args@[k].name@ && out.args@[k].ty
            == inst.args@[k].ty
    &&& out.body@ == inst.body@
    &&& out.accounts@.len() == accs.len()
    &&& forall|j: int|
        0 <= j < accs.len() ==> account_lowered(accs[j], j, analysis, out.accounts@[j])
    &&& validations_match(out.validations@, spec_validations_upto(accs, accs.len() as int))
}

fn clone_args(args: &Vec<FieldDef>) -> (out: Vec<FieldDef>)
    ensures
        out@.len() == args@.len(),
        forall|k: int|
            0 <= k < args@.len() ==> out@[k].name@ == args@[k].name@ && out@[k].ty == args@[k].ty,
{
    let mut out: Vec<FieldDef> = Vec::new();
    let mut i: usize = 0;
    while i < args.len()
        invariant
            i <= args@.len(),
            out@.len() == i,
            forall|k: int|
                0 <= k < i ==> out@[k].name@ == args@[k].name@ && out@[k].ty == args@[k].ty,
        decreases args@.len() - i,
    {
        out.push(FieldDef { name: clone_bytes(&args[i].name), ty: args[i].ty });
        i = i + 1;
    }
    out
}

fn transform_instruction(
    inst: &AnchorInstruction,
    program: &AnchorProgram,
    analysis: &ProgramAnalysis,
    config: &Config,
) -> (out: PinocchioInstruction)
    ensures
        instruction_lowered(*inst, *program, *analysis, config.anchor_compat, out),
{
    let discriminator: Vec<u8> = if config.anchor_compat {
        anchor_discriminator(inst.name.as_slice())
    } else {
        let mut z: Vec<u8> = Vec::new();
        let mut k: usize = 0;
        while k < 8
            invariant
                k <= 8,
                z@.len() == k,
                forall|j: int| 0 <= j < k ==> z@[j] == 0u8,
            decreases 8 - k,
        {
            z.push(0);
            k = k + 1;
        }
        proof {
            assert(z@ =~= seq![0u8, 0u8, 0u8, 0u8, 0u8, 0u8, 0u8, 0u8]);
        }
        z
    };
    let found: Option<usize> = find_struct(&program.account_structs, &inst.accounts_struct);
    let (accounts, validations): (Vec<PinocchioAccount>, Vec<Validation>) = match found {
        Some(k) => {
            let account_struct = &program.account_structs[k];
            let mut accounts: Vec<PinocchioAccount> = Vec::new();
            let mut i: usize = 0;
            while i < account_struct.accounts.len()
                invariant
                    i <= account_struct.accounts@.len(),
                    accounts@.len() == i,
                    forall|j: int|
                        0 <= j < i ==> account_lowered(
                            account_struct.accounts@[j],
                            j,
                            *analysis,
                            accounts@[j],
                        ),
            decreases account_struct.accounts@.len() - i,
            {
                let lowered = transform_account(&account_struct.accounts[i], i, analysis);
                accounts.push(lowered);
                i = i + 1;
            }
            let validations = generate_validations(account_struct, analysis);
            (accounts, validations)
        },
        None => (Vec::new(), Vec::new()),
    };
    PinocchioInstruction {
        name: clone_bytes(&inst.name),
        discriminator,
        accounts,
        args: clone_args(&inst.args),
        validations,
        body: clone_bytes(&inst.body),
    }
}

/// How one lowered field relates to position `k` of the source fields.
pub open spec fn field_lowered(fields: Seq<FieldDef>, k: int, out: PinocchioField) -> bool {
    &&& out.name@ == fields[k].name@
    &&& out.ty == fields[k].ty
    &&& out.size == spec_field_size(fields[k].ty)
    &&& out.offset == spec_field_offset(fields, k)
}

/// How a lowered state struct relates to its source: the analysis' recorded
/// size (zero where none is recorded), and each field at the raw offset the
/// fields before it dictate, past the eight-byte discriminator.
pub open spec fn state_lowered(
    s: AnchorStateStruct,
    analysis: ProgramAnalysis,
    out: PinocchioState,
) -> bool {
    &&& out.name@ == s.name@
    &&& out.size == (match spec_find_size(analysis.account_sizes@, s.name@, 0) {
        Some(k) => analysis.account_sizes@[k].size as int,
        None => 0,
    })
    &&& out.fields@.len() == s.fields@.len()
    &&& forall|k: int| 0 <= k < s.fields@.len() ==> field_lowered(s.fields@, k, out.fields@[k])
}

fn transform_state(s: &AnchorStateStruct, analysis: &ProgramAnalysis) -> (out: PinocchioState)
    ensures
        state_lowered(*s, *analysis, out),
{
    let total_size: u64 = match find_size(&analysis.account_sizes, &s.name) {
        Some(k) => analysis.account_sizes[k].size,
        None => 0,
    };
    let mut fields: Vec<PinocchioField> = Vec::new();
    let mut offset: u128 = 8;
    let mut i: usize = 0;
    while i < s.fields.len()
        invariant
            i <= s.fields@.len(),
            fields@.len() == i,
            offset == spec_field_offset(s.fields@, i as int),
            offset <= 8 + 32 * i,
            forall|k: int| 0 <= k < i ==> field_lowered(s.fields@, k, fields@[k]),
        decreases s.fields@.len() - i,
    {
        let size: u64 = estimate_field_size(s.fields[i].ty);
        let f = PinocchioField {
            name: clone_bytes(&s.fields[i].name),
            ty: s.fields[i].ty,
            size,
            offset,
        };
        let ghost fg = f;
        let ghost before = fields@;
        fields.push(f);
        proof {
            assert(fields@ == before.push(fg));
            assert(fields@[i as int] == fg);
            assert(field_lowered(s.fields@, i as int, fg));
            assert forall|k: int| 0 <= k < i + 1 implies field_lowered(
                s.fields@,
                k,
                fields@[k],
            ) by {
                if k < i as int {
                    assert(fields@[k] == before[k]);
                }
            }
            assert(spec_field_offset(s.fields@, i + 1) == spec_field_offset(s.fields@, i as int)
                + spec_field_size(s.fields@[i as int].ty));
        }
        offset = offset + size as u128;
        i = i + 1;
    }
    PinocchioState { name: clone_bytes(&s.name), size: total_size, fields }
}

/// How a lowered error relates to its source: same name and message, with
/// the first Anchor error code standing in where none is given.
pub open spec fn error_lowered(e: AnchorError, out: PinocchioError) -> bool {
    &&& out.name@ == e.name@
    &&& out.code == (match e.code {
        Some(c) => c as int,
        None => 6000,
    })
    &&& out.msg@ == e.msg@
}

fn transform_errors(anchor_errors: &Vec<AnchorError>) -> (out: Vec<PinocchioError>)
    ensures
        out@.len() == anchor_errors@.len(),
        forall|k: int| 0 <= k < anchor_errors@.len() ==> error_lowered(anchor_errors@[k], out@[k]),
{
    let mut out: Vec<PinocchioError> = Vec::new();
    let mut i: usize = 0;
    while i < anchor_errors.len()
        invariant
            i <= anchor_errors@.len(),
            out@.len() == i,
            forall|k: int| 0 <= k < i ==> error_lowered(anchor_errors@[k], out@[k]),
        decreases anchor_errors@.len() - i,
    {
        let e = &anchor_errors[i];
        let code: u32 = match e.code {
            Some(c) => c,
            None => 6000,
        };
        out.push(PinocchioError { name: clone_bytes(&e.name), code, msg: clone_bytes(&e.msg) });
        i = i + 1;
    }
    out
}

/// Lowers a whole program: each instruction, each state struct and each
/// error, with the lowering options carried into the output.
pub fn transform(anchor: &AnchorProgram, analysis: &ProgramAnalysis, config: &Config) -> (out:
    PinocchioProgram)
    ensures
        out.name@ == anchor.name@,
        out.program_id@ == anchor.program_id@,
        out.config.no_alloc == config.no_alloc,
        out.config.lazy_entrypoint == config.lazy_entrypoint,
        out.config.anchor_compat == config.anchor_compat,
        out.instructions@.len() == anchor.instructions@.len(),
        forall|k: int|
            0 <= k < anchor.instructions@.len() ==> instruction_lowered(
                anchor.instructions@[k],
                *anchor,
                *analysis,
                config.anchor_compat,
                out.instructions@[k],
            ),
        out.state_structs@.len() == anchor.state_structs@.len(),
        forall|k: int|
            0 <= k < anchor.state_structs@.len() ==> state_lowered(
                anchor.state_structs@[k],
                *analysis,
                out.state_structs@[k],
            ),
        out.errors@.len() == anchor.errors@.len(),
        forall|k: int|
            0 <= k < anchor.errors@.len() ==> error_lowered(anchor.errors@[k], out.errors@[k]),
{
    let mut instructions: Vec<PinocchioInstruction> = Vec::new();
    let mut i: usize = 0;
    while i < anchor.instructions.len()
        invariant
            i <= anchor.instructions@.len(),
            instructions@.len() == i,
            forall|k: int|
                0 <= k < i ==> instruction_lowered(
                    anchor.instructions@[k],
                    *anchor,
                    *analysis,
                    config.anchor_compat,
                    instructions@[k],
                ),
        decreases anchor.instructions@.len() - i,
    {
        let lowered = transform_instruction(&anchor.instructions[i], anchor, analysis, config);
        instructions.push(lowered);
        i = i + 1;
    }
    let mut state_structs: Vec<PinocchioState> = Vec::new();
    let mut j: usize = 0;
    while j < anchor.state_structs.len()
        invariant
            j <= anchor.state_structs@.len(),
            state_structs@.len() == j,
            forall|k: int|
                0 <= k < j ==> state_lowered(
                    anchor.state_structs@[k],
                    *analysis,
                    state_structs@[k],
                ),
        decreases anchor.state_structs@.len() - j,
    {
        let lowered = transform_state(&anchor.state_structs[j], analysis);
        state_structs.push(lowered);
        j = j + 1;
    }
    let errors: Vec<PinocchioError> = transform_errors(&anchor.errors);
    PinocchioProgram {
        name: clone_bytes(&anchor.name),
        program_id: clone_bytes(&anchor.program_id),
        config: PinocchioConfig {
            no_alloc: config.no_alloc,
            lazy_entrypoint: config.lazy_entrypoint,
            anchor_compat: config.anchor_compat,
        },
        instructions,
        state_structs,
        errors,
    }
}

} // verus!
