use vstd::prelude::*;

use vstd::bytes::{spec_u32_to_le_bytes, spec_u64_from_le_bytes, spec_u64_to_le_bytes, u32_to_le_bytes};

use crate::account::{AccountInfo, BorrowState};
use crate::data::{copy_prefix, push_bytes, push_pubkey, push_u64_le, read_pubkey, read_u64_le};
use crate::error::{ProgramError, ProgramResult};
use crate::instruction::{AccountMeta, Instruction, SignerProof};
use crate::pubkey::{Pubkey, MAX_SEEDS, MAX_SEED_LEN};
use crate::runtime::{handles_in_range, spec_validate, validate_dispatch, Runtime};

verus! {

/// The behaviour of one registered program in the simulated backend.
///
/// A registered entry point either finishes on its own, or performs one
/// nested dispatch into another registered program on the same accounts and
/// payload, so tests can exercise real multi-hop call graphs.
#[derive(Clone, Copy, Debug, PartialEq, Eq)]
pub enum MockProgram {
    /// Return success without touching anything.
    Succeed,
    /// Fail with the given code.
    Fail(u64),
    /// Perform one checked dispatch into the given program, passing the
    /// same accounts and the same payload.
    Invoke(Pubkey),
    /// Perform one checked dispatch into the first program and then, if it
    /// succeeded, one into the second, each on the same accounts and
    /// payload. Since behaviours nest, this builds bounded trees of calls.
    InvokeBoth(Pubkey, Pubkey),
}

/// A simulated account: the metadata the host would hold for it, and its
/// content: either a program's behaviour or raw persisted bytes.
#[derive(Clone, Debug)]
pub struct MockAccount<T> {
    pub is_signer: bool,
    pub is_writable: bool,
    pub key: Pubkey,
    pub owner: Pubkey,
    pub lamports: u64,
    pub data: T,
}

/// A simulated executable account.
pub type MockProgramAccount = MockAccount<MockProgram>;

/// A simulated account holding raw persisted bytes.
pub type MockDataAccount = MockAccount<Vec<u8>>;

impl MockProgramAccount {
    /// A simulated executable account with the given behaviour.
    pub fn new_program(
        is_signer: bool,
        is_writable: bool,
        key: Pubkey,
        owner: Pubkey,
        lamports: u64,
        program: MockProgram,
    ) -> (a: MockProgramAccount)
        ensures
            a == (MockAccount {
                is_signer,
                is_writable,
                key,
                owner,
                lamports,
                data: program,
            }),
    {
        MockAccount { is_signer, is_writable, key, owner, lamports, data: program }
    }
}

/// The encoded form of a data account, as the host lays it out: a flags
/// word, the data length as a 32-bit field, the key, the owner, the
/// balance, the data length again as a 64-bit field, then the data bytes.
pub open spec fn spec_account_bytes(
    is_signer: bool,
    is_writable: bool,
    key: Seq<u8>,
    owner: Seq<u8>,
    lamports: u64,
    data: Seq<u8>,
) -> Seq<u8> {
    seq![0u8, (if is_signer { 1u8 } else { 0u8 }), (if is_writable { 1u8 } else { 0u8 }), 0u8]
        + spec_u32_to_le_bytes(data.len() as u32) + key + owner + spec_u64_to_le_bytes(lamports)
        + spec_u64_to_le_bytes(data.len() as u64) + data
}

impl MockDataAccount {
    /// A simulated data account with the given persisted bytes.
    pub fn new_data_account(
        is_signer: bool,
        is_writable: bool,
        key: Pubkey,
        owner: Pubkey,
        lamports: u64,
        data: Vec<u8>,
    ) -> (a: MockDataAccount)
        ensures
            a == (MockAccount { is_signer, is_writable, key, owner, lamports, data }),
    {
        MockAccount { is_signer, is_writable, key, owner, lamports, data }
    }

    /// Encode the account as the host lays it out in memory.
    pub fn to_bytes(self) -> (raw: Vec<u8>)
        requires
            self.data@.len() <= u32::MAX,
        ensures
            raw@ == spec_account_bytes(
                self.is_signer,
                self.is_writable,
                self.key@,
                self.owner@,
                self.lamports,
                self.data@,
            ),
    {
        let mut raw: Vec<u8> = Vec::new();
        raw.push(0);
        raw.push(if self.is_signer { 1 } else { 0 });
        raw.push(if self.is_writable { 1 } else { 0 });
        raw.push(0);
        let mut len32 = u32_to_le_bytes(self.data.len() as u32);
        raw.append(&mut len32);
        push_pubkey(&mut raw, &self.key);
        push_pubkey(&mut raw, &self.owner);
        push_u64_le(&mut raw, self.lamports);
        push_u64_le(&mut raw, self.data.len() as u64);
        push_bytes(&mut raw, &self.data);
        proof {
            assert(raw@ =~= spec_account_bytes(
                self.is_signer,
                self.is_writable,
                self.key@,
                self.owner@,
                self.lamports,
                self.data@,
            ));
        }
        raw
    }
}

/// What one registered key stands for.
#[derive(Clone, Copy, Debug, PartialEq, Eq, Structural)]
pub enum EntryKind {
    /// An executable entry.
    Program,
    /// A raw-bytes entry.
    Data,
}

/// One registry binding: a key, what it stands for, where its content
/// lives, and a human-readable name for the log.
#[derive(Clone, Debug)]
pub struct MapEntry {
    pub key: Pubkey,
    pub kind: EntryKind,
    pub id: usize,
    pub name: String,
}

/// The first registry position bound to the given key, from position `i`
/// on.
pub open spec fn spec_find_from(entries: Seq<MapEntry>, key: Seq<u8>, i: int) -> Option<int>
    decreases entries.len() - i,
{
    if i < 0 || i >= entries.len() {
        None
    } else if entries[i].key@ == key {
        Some(i)
    } else {
        spec_find_from(entries, key, i + 1)
    }
}

/// The first registry position bound to the given key.
pub open spec fn spec_find(entries: Seq<MapEntry>, key: Seq<u8>) -> Option<int> {
    spec_find_from(entries, key, 0)
}

/// The registry binding for the given key, if any.
pub open spec fn spec_lookup(entries: Seq<MapEntry>, key: Seq<u8>) -> Option<MapEntry> {
    match spec_find(entries, key) {
        Some(i) => Some(entries[i]),
        None => None,
    }
}

/// Searching from position zero agrees with searching from position `i`
/// while every earlier position is bound to another key.
proof fn lemma_find_skip(entries: Seq<MapEntry>, key: Seq<u8>, i: int)
    requires
        0 <= i <= entries.len(),
        forall|j: int| 0 <= j < i ==> (#[trigger] entries[j].key@) != key,
    ensures
        spec_find_from(entries, key, 0) == spec_find_from(entries, key, i),
    decreases i,
{
    if i > 0 {
        lemma_find_skip(entries, key, i - 1);
    }
}


/// Does the registry position hold the given binding?
pub open spec fn entry_matches(
    e: MapEntry,
    key: Pubkey,
    kind: EntryKind,
    id: int,
    name: Seq<char>,
) -> bool {
    &&& e.key == key
    &&& e.kind == kind
    &&& e.id as int == id
    &&& e.name@ == name
}

/// How registering a binding changes the registry: the first entry with the
/// same key is replaced, or a new entry is appended.
pub open spec fn registered(
    pre: Seq<MapEntry>,
    post: Seq<MapEntry>,
    key: Pubkey,
    kind: EntryKind,
    id: int,
    name: Seq<char>,
) -> bool {
    match spec_find(pre, key@) {
        Some(i) => {
            &&& post.len() == pre.len()
            &&& entry_matches(post[i], key, kind, id, name)
            &&& forall|j: int| 0 <= j < pre.len() && j != i ==> post[j] == pre[j]
        },
        None => {
            &&& post.len() == pre.len() + 1
            &&& entry_matches(post[pre.len() as int], key, kind, id, name)
            &&& forall|j: int| 0 <= j < pre.len() ==> post[j] == pre[j]
        },
    }
}

/// The mathematical content of one log entry.
pub enum LogView {
    /// A line of text.
    Message(Seq<char>),
    /// Five 64-bit words.
    Words(u64, u64, u64, u64, u64),
    /// Raw byte blocks.
    Bytes(Seq<Seq<u8>>),
    /// The remaining compute units.
    ComputeUnits(u64),
    /// A dispatch entered the named program with the given account
    /// identifiers.
    Enter(Seq<char>, Seq<Seq<u8>>),
    /// The named program returned to its caller.
    Exit(Seq<char>),
}

/// One entry of the simulated backend's log buffer.
#[derive(Clone, Debug, PartialEq, Eq)]
pub enum LogEntry {
    /// A line of text.
    Message(String),
    /// Five 64-bit words.
    Words(u64, u64, u64, u64, u64),
    /// Raw byte blocks.
    Bytes(Vec<Vec<u8>>),
    /// The remaining compute units.
    ComputeUnits(u64),
    /// A dispatch entered the named program with the given account
    /// identifiers.
    Enter(String, Vec<Pubkey>),
    /// The named program returned to its caller.
    Exit(String),
}

impl View for LogEntry {
    type V = LogView;

    open spec fn view(&self) -> LogView {
        match self {
            LogEntry::Message(m) => LogView::Message(m@),
            LogEntry::Words(a1, a2, a3, a4, a5) => LogView::Words(*a1, *a2, *a3, *a4, *a5),
            LogEntry::Bytes(blocks) => LogView::Bytes(blocks@.map_values(|b: Vec<u8>| b@)),
            LogEntry::ComputeUnits(cu) => LogView::ComputeUnits(*cu),
            LogEntry::Enter(name, keys) => LogView::Enter(
                name@,
                keys@.map_values(|k: Pubkey| k@),
            ),
            LogEntry::Exit(name) => LogView::Exit(name@),
        }
    }
}

/// The content of a log buffer.
pub open spec fn log_views(l: Seq<LogEntry>) -> Seq<LogView> {
    l.map_values(|e: LogEntry| e@)
}

/// Appending one entry to the buffer appends its content.
pub proof fn lemma_log_views_push(l: Seq<LogEntry>, e: LogEntry)
    ensures
        log_views(l.push(e)) == log_views(l).push(e@),
{
    assert(log_views(l.push(e)) =~= log_views(l).push(e@));
}

/// The deterministic in-process backend: a registry of named entries, each
/// either an executable behaviour or raw account bytes, together with a log
/// buffer and a compute-budget counter. Tests register entries, dispatch
/// calls against them, and read the log buffer back.
#[derive(Debug)]
pub struct MockRuntime {
    /// The registry: key to binding, replace-on-reregister.
    pub entries: Vec<MapEntry>,
    /// The registered executable accounts, in registration order.
    pub program_accounts: Vec<MockProgramAccount>,
    /// The registered data accounts, encoded as the host lays them out.
    pub data_accounts: Vec<Vec<u8>>,
    /// The log buffer.
    pub logs: Vec<LogEntry>,
    /// The compute-budget counter.
    pub compute_units: u64,
}

impl MockRuntime {
    /// A fresh, empty runtime.
    pub fn init() -> (rt: MockRuntime)
        ensures
            rt.entries@ == Seq::<MapEntry>::empty(),
            rt.program_accounts@ == Seq::<MockProgramAccount>::empty(),
            rt.data_accounts@ == Seq::<Vec<u8>>::empty(),
            rt.logs@ == Seq::<LogEntry>::empty(),
            rt.compute_units == 0,
    {
        MockRuntime {
            entries: Vec::new(),
            program_accounts: Vec::new(),
            data_accounts: Vec::new(),
            logs: Vec::new(),
            compute_units: 0,
        }
    }

    /// The registry position bound to the given key, if any.
    fn find_entry(&self, key: &Pubkey) -> (r: Option<usize>)
        ensures
            match r {
                Some(i) => {
                    &&& spec_find(self.entries@, key@) == Some(i as int)
                    &&& i < self.entries@.len()
                    &&& self.entries@[i as int].key@ == key@
                },
                None => spec_find(self.entries@, key@) is None,
            },
    {
        let mut i: usize = 0;
        while i < self.entries.len()
            invariant
                i <= self.entries@.len(),
                forall|j: int| 0 <= j < i ==> (#[trigger] self.entries@[j].key@) != key@,
            decreases self.entries@.len() - i,
        {
            if self.entries[i].key.key_eq(key) {
                proof {
                    lemma_find_skip(self.entries@, key@, i as int);
                }
                return Some(i);
            }
            i += 1;
        }
        proof {
            lemma_find_skip(self.entries@, key@, self.entries@.len() as int);
        }
        None
    }

    /// Bind a key in the registry, replacing any existing binding.
    fn bind(&mut self, key: Pubkey, kind: EntryKind, id: usize, name: &str)
        ensures
            registered(old(self).entries@, final(self).entries@, key, kind, id as int, name@),
            final(self).program_accounts == old(self).program_accounts,
            final(self).data_accounts == old(self).data_accounts,
            final(self).logs == old(self).logs,
            final(self).compute_units == old(self).compute_units,
    {
        let entry = MapEntry { key, kind, id, name: name.to_owned() };
        match self.find_entry(&key) {
            Some(i) => {
                self.entries[i] = entry;
            },
            None => {
                self.entries.push(entry);
            },
        }
    }

    /// Register an executable entry under a name: dispatching to its key
    /// will run its behaviour.
    pub fn register_program_account(&mut self, name: &str, program: MockProgramAccount)
        ensures
            final(self).program_accounts@ == old(self).program_accounts@.push(program),
            registered(
                old(self).entries@,
                final(self).entries@,
                program.key,
                EntryKind::Program,
                old(self).program_accounts@.len() as int,
                name@,
            ),
            final(self).data_accounts == old(self).data_accounts,
            final(self).logs == old(self).logs,
            final(self).compute_units == old(self).compute_units,
    {
        let id = self.program_accounts.len();
        let key = program.key;
        self.bind(key, EntryKind::Program, id, name);
        self.program_accounts.push(program);
    }

    /// Register a raw-bytes entry under a name: its content is stored as
    /// the host lays accounts out in memory.
    pub fn register_data_account(&mut self, name: &str, account: MockDataAccount)
        requires
            account.data@.len() <= u32::MAX,
        ensures
            final(self).data_accounts@.len() == old(self).data_accounts@.len() + 1,
            final(self).data_accounts@.last()@ == spec_account_bytes(
                account.is_signer,
                account.is_writable,
                account.key@,
                account.owner@,
                account.lamports,
                account.data@,
            ),
            forall|j: int|
                0 <= j < old(self).data_accounts@.len()
                    ==> final(self).data_accounts@[j] == old(self).data_accounts@[j],
            registered(
                old(self).entries@,
                final(self).entries@,
                account.key,
                EntryKind::Data,
                old(self).data_accounts@.len() as int,
                name@,
            ),
            final(self).program_accounts == old(self).program_accounts,
            final(self).logs == old(self).logs,
            final(self).compute_units == old(self).compute_units,
    {
        let id = self.data_accounts.len();
        let key = account.key;
        self.bind(key, EntryKind::Data, id, name);
        self.data_accounts.push(account.to_bytes());
    }
}

/// Is this byte sequence a sound account encoding? The length field must
/// agree with the bytes actually present.
pub open spec fn account_bytes_wf(bytes: Seq<u8>) -> bool {
    &&& bytes.len() >= 88
    &&& spec_u64_from_le_bytes(bytes.subrange(80, 88)) == bytes.len() - 88
}

/// Does the live account view hold exactly what the encoding stores?
pub open spec fn account_matches_bytes(a: AccountInfo, bytes: Seq<u8>) -> bool {
    &&& a.is_signer == (bytes[1] != 0)
    &&& a.is_writable == (bytes[2] != 0)
    &&& a.key@ == bytes.subrange(8, 40)
    &&& a.owner@ == bytes.subrange(40, 72)
    &&& a.lamports == spec_u64_from_le_bytes(bytes.subrange(72, 80))
    &&& a.data@ == bytes.subrange(88, bytes.len() as int)
    &&& a.data_borrow == BorrowState::Free
    &&& a.lamports_borrow == BorrowState::Free
}

impl MockRuntime {
    /// A fresh live view of the data account registered under the given
    /// key: `None` if the key is unbound, bound to an executable entry, or
    /// bound to bytes that are not a sound account encoding.
    pub fn get_data_account(&self, key: &Pubkey) -> (r: Option<AccountInfo>)
        ensures
            ({
                let found = spec_lookup(self.entries@, key@);
                if found matches Some(e) && e.kind == EntryKind::Data
                    && e.id < self.data_accounts@.len()
                    && account_bytes_wf(self.data_accounts@[e.id as int]@) {
                    r matches Some(a) && account_matches_bytes(
                        a,
                        self.data_accounts@[found->Some_0.id as int]@,
                    )
                } else {
                    r is None
                }
            }),
    {
        let eidx = match self.find_entry(key) {
            None => {
                return None;
            },
            Some(i) => i,
        };
        let entry = &self.entries[eidx];
        if matches!(entry.kind, EntryKind::Program) {
            return None;
        }
        if entry.id >= self.data_accounts.len() {
            return None;
        }
        let bytes = &self.data_accounts[entry.id];
        let n = bytes.len();
        if n < 88 {
            return None;
        }
        let len_field = read_u64_le(bytes, 80);
        if len_field != (n - 88) as u64 {
            return None;
        }
        let account = AccountInfo::new(
            read_pubkey(bytes, 8),
            bytes[1] != 0,
            bytes[2] != 0,
            read_pubkey(bytes, 40),
            read_u64_le(bytes, 72),
            crate::data::copy_range(bytes, 88, n),
        );
        Some(account)
    }
}

/// Law: encoding an account and reading the encoding back reproduces every
/// field exactly, and the encoding is sound.
pub proof fn lemma_account_bytes_round_trip(
    is_signer: bool,
    is_writable: bool,
    key: Seq<u8>,
    owner: Seq<u8>,
    lamports: u64,
    data: Seq<u8>,
)
    requires
        key.len() == 32,
        owner.len() == 32,
        data.len() <= u32::MAX,
    ensures
        ({
            let bytes = spec_account_bytes(is_signer, is_writable, key, owner, lamports, data);
            &&& account_bytes_wf(bytes)
            &&& (bytes[1] != 0) == is_signer
            &&& (bytes[2] != 0) == is_writable
            &&& bytes.subrange(8, 40) == key
            &&& bytes.subrange(40, 72) == owner
            &&& spec_u64_from_le_bytes(bytes.subrange(72, 80)) == lamports
            &&& bytes.subrange(88, bytes.len() as int) == data
        }),
{
    vstd::bytes::lemma_auto_spec_u32_to_from_le_bytes();
    vstd::bytes::lemma_auto_spec_u64_to_from_le_bytes();
    let bytes = spec_account_bytes(is_signer, is_writable, key, owner, lamports, data);
    assert(bytes.subrange(8, 40) =~= key);
    assert(bytes.subrange(40, 72) =~= owner);
    assert(bytes.subrange(72, 80) =~= spec_u64_to_le_bytes(lamports));
    assert(bytes.subrange(80, 88) =~= spec_u64_to_le_bytes(data.len() as u64));
    assert(bytes.subrange(88, bytes.len() as int) =~= data);
}


/// The deepest chain of nested dispatches the simulated backend runs before
/// it gives up, mirroring the host's own nesting limit. The budget keeps
/// every simulated call chain finite — a registered program that invokes
/// itself fails with `CallDepthExceeded` instead of recursing without end.
pub const MAX_CALL_DEPTH: usize = 4;

/// The identifiers of the accounts a dispatch passes to the callee.
pub open spec fn spec_keys_of(handles: Seq<usize>, set: Seq<AccountInfo>) -> Seq<Seq<u8>> {
    handles.map_values(|h: usize| set[h as int].key@)
}

/// The identifiers of the accounts named by the handles, in order.
fn keys_of(handles: &Vec<usize>, set: &Vec<AccountInfo>) -> (v: Vec<Pubkey>)
    requires
        handles_in_range(handles@, set@.len()),
    ensures
        v@.map_values(|k: Pubkey| k@) == spec_keys_of(handles@, set@),
{
    let mut v: Vec<Pubkey> = Vec::new();
    let mut i: usize = 0;
    while i < handles.len()
        invariant
            i <= handles@.len(),
            handles_in_range(handles@, set@.len()),
            v@.len() == i,
            forall|j: int| 0 <= j < i ==> (#[trigger] v@[j]) == set@[handles@[j] as int].key,
        decreases handles@.len() - i,
    {
        v.push(set[handles[i]].key);
        i += 1;
    }
    proof {
        assert(v@.map_values(|k: Pubkey| k@) =~= spec_keys_of(handles@, set@));
    }
    v
}

/// What one dispatch into the registry does, given the registered entries
/// and programs: the log entries it appends and the result it returns.
///
/// The target is resolved in the registry; an unbound key or a data entry
/// fails without reaching any program. Otherwise the entry's behaviour runs
/// between an enter mark and an exit mark; a nested dispatch re-validates
/// the same accounts and runs one level deeper, until the depth budget is
/// spent.
pub open spec fn spec_run(
    entries: Seq<MapEntry>,
    programs: Seq<MockProgramAccount>,
    target: Seq<u8>,
    metas: Seq<AccountMeta>,
    data: Seq<u8>,
    handles: Seq<usize>,
    set: Seq<AccountInfo>,
    depth: nat,
) -> (Seq<LogView>, ProgramResult)
    decreases depth,
{
    match spec_lookup(entries, target) {
        None => (Seq::<LogView>::empty(), Err(ProgramError::UnknownTarget)),
        Some(e) => {
            if e.kind == EntryKind::Data {
                (Seq::<LogView>::empty(), Err(ProgramError::TargetNotExecutable))
            } else if e.id >= programs.len() {
                (Seq::<LogView>::empty(), Err(ProgramError::UnknownTarget))
            } else {
                let enter = LogView::Enter(e.name@, spec_keys_of(handles, set));
                let exit = LogView::Exit(e.name@);
                let body = match programs[e.id as int].data {
                    MockProgram::Succeed => (Seq::<LogView>::empty(), Ok::<(), ProgramError>(())),
                    MockProgram::Fail(code) => (
                        Seq::<LogView>::empty(),
                        Err::<(), ProgramError>(ProgramError::HostReportedFailure(code)),
                    ),
                    MockProgram::Invoke(next) => {
                        if depth == 0 {
                            (
                                Seq::<LogView>::empty(),
                                Err::<(), ProgramError>(ProgramError::CallDepthExceeded),
                            )
                        } else {
                            match spec_validate(metas, handles, set) {
                                Err(err) => (Seq::<LogView>::empty(), Err::<(), ProgramError>(err)),
                                Ok(()) => spec_run(
                                    entries,
                                    programs,
                                    next@,
                                    metas,
                                    data,
                                    handles,
                                    set,
                                    (depth - 1) as nat,
                                ),
                            }
                        }
                    },
                    MockProgram::InvokeBoth(first, second) => {
                        // The accounts and their borrows do not change
                        // between the two nested dispatches, so one
                        // validation outcome covers both.
                        if depth == 0 {
                            (
                                Seq::<LogView>::empty(),
                                Err::<(), ProgramError>(ProgramError::CallDepthExceeded),
                            )
                        } else {
                            match spec_validate(metas, handles, set) {
                                Err(err) => (Seq::<LogView>::empty(), Err::<(), ProgramError>(err)),
                                Ok(()) => {
                                    let run_a = spec_run(
                                        entries,
                                        programs,
                                        first@,
                                        metas,
                                        data,
                                        handles,
                                        set,
                                        (depth - 1) as nat,
                                    );
                                    if run_a.1 is Err {
                                        run_a
                                    } else {
                                        let run_b = spec_run(
                                            entries,
                                            programs,
                                            second@,
                                            metas,
                                            data,
                                            handles,
                                            set,
                                            (depth - 1) as nat,
                                        );
                                        (run_a.0 + run_b.0, run_b.1)
                                    }
                                },
                            }
                        }
                    },
                };
                (seq![enter] + body.0 + seq![exit], body.1)
            }
        },
    }
}

impl MockRuntime {
    /// Resolve the target in the registry and run the registered behaviour,
    /// appending enter and exit marks around it; a nested dispatch runs one
    /// level deeper.
    fn run_program(
        &mut self,
        target: Pubkey,
        metas: &Vec<AccountMeta>,
        data: &Vec<u8>,
        handles: &Vec<usize>,
        set: &Vec<AccountInfo>,
        depth: usize,
    ) -> (r: ProgramResult)
        requires
            handles_in_range(handles@, set@.len()),
        ensures
            ({
                let run = spec_run(
                    old(self).entries@,
                    old(self).program_accounts@,
                    target@,
                    metas@,
                    data@,
                    handles@,
                    set@,
                    depth as nat,
                );
                &&& log_views(final(self).logs@) == log_views(old(self).logs@) + run.0
                &&& r == run.1
            }),
            final(self).entries == old(self).entries,
            final(self).program_accounts == old(self).program_accounts,
            final(self).data_accounts == old(self).data_accounts,
            final(self).compute_units == old(self).compute_units,
        decreases depth,
    {
        let ghost run = spec_run(
            self.entries@,
            self.program_accounts@,
            target@,
            metas@,
            data@,
            handles@,
            set@,
            depth as nat,
        );
        let eidx = match self.find_entry(&target) {
            None => {
                proof {
                    assert(log_views(self.logs@) =~= log_views(self.logs@) + run.0);
                }
                return Err(ProgramError::UnknownTarget);
            },
            Some(i) => i,
        };
        if matches!(self.entries[eidx].kind, EntryKind::Data) {
            proof {
                assert(log_views(self.logs@) =~= log_views(self.logs@) + run.0);
            }
            return Err(ProgramError::TargetNotExecutable);
        }
        let id = self.entries[eidx].id;
        if id >= self.program_accounts.len() {
            proof {
                assert(log_views(self.logs@) =~= log_views(self.logs@) + run.0);
            }
            return Err(ProgramError::UnknownTarget);
        }
        let name = self.entries[eidx].name.clone();
        let exit_name = name.clone();
        let program = self.program_accounts[id].data;
        let keys = keys_of(handles, set);
        let ghost logs0 = self.logs@;
        let ghost enter_view = LogView::Enter(
            self.entries@[eidx as int].name@,
            spec_keys_of(handles@, set@),
        );
        let ghost exit_view = LogView::Exit(self.entries@[eidx as int].name@);
        let ghost enter_entry = LogEntry::Enter(name, keys);
        self.logs.push(LogEntry::Enter(name, keys));
        proof {
            lemma_log_views_push(logs0, enter_entry);
            assert(enter_entry@ == enter_view);
        }
        let ghost mid = *self;
        let res: ProgramResult = match program {
            MockProgram::Succeed => Ok(()),
            MockProgram::Fail(code) => Err(ProgramError::HostReportedFailure(code)),
            MockProgram::Invoke(next) => {
                if depth == 0 {
                    Err(ProgramError::CallDepthExceeded)
                } else {
                    match validate_dispatch(metas, handles, set) {
                        Err(e) => Err(e),
                        Ok(()) => self.run_program(next, metas, data, handles, set, depth - 1),
                    }
                }
            },
            MockProgram::InvokeBoth(first, second) => {
                if depth == 0 {
                    Err(ProgramError::CallDepthExceeded)
                } else {
                    match validate_dispatch(metas, handles, set) {
                        Err(e) => Err(e),
                        Ok(()) => {
                            match self.run_program(first, metas, data, handles, set, depth - 1) {
                                Err(e) => Err(e),
                                Ok(()) => self.run_program(
                                    second,
                                    metas,
                                    data,
                                    handles,
                                    set,
                                    depth - 1,
                                ),
                            }
                        },
                    }
                }
            },
        };
        let ghost body = match program {
            MockProgram::Invoke(next) => if depth > 0 && (spec_validate(
                metas@,
                handles@,
                set@,
            ) is Ok) {
                spec_run(
                    mid.entries@,
                    mid.program_accounts@,
                    next@,
                    metas@,
                    data@,
                    handles@,
                    set@,
                    (depth - 1) as nat,
                ).0
            } else {
                Seq::<LogView>::empty()
            },
            MockProgram::InvokeBoth(first, second) => if depth > 0 && (spec_validate(
                metas@,
                handles@,
                set@,
            ) is Ok) {
                let run_a = spec_run(
                    mid.entries@,
                    mid.program_accounts@,
                    first@,
                    metas@,
                    data@,
                    handles@,
                    set@,
                    (depth - 1) as nat,
                );
                if run_a.1 is Err {
                    run_a.0
                } else {
                    run_a.0 + spec_run(
                        mid.entries@,
                        mid.program_accounts@,
                        second@,
                        metas@,
                        data@,
                        handles@,
                        set@,
                        (depth - 1) as nat,
                    ).0
                }
            } else {
                Seq::<LogView>::empty()
            },
            _ => Seq::<LogView>::empty(),
        };
        proof {
            assert(log_views(self.logs@) =~= log_views(logs0).push(enter_view) + body);
            assert(res == run.1);
        }
        let ghost logs1 = self.logs@;
        let ghost exit_entry = LogEntry::Exit(exit_name);
        self.logs.push(LogEntry::Exit(exit_name));
        proof {
            lemma_log_views_push(logs1, exit_entry);
            assert(exit_entry@ == exit_view);
            assert(run.0 =~= seq![enter_view] + body + seq![exit_view]);
            assert(log_views(self.logs@) =~= log_views(logs0) + run.0);
        }
        res
    }
}

/// How the registered entries and programs do not change under dispatch or
/// logging.
pub open spec fn same_except_logs(pre: MockRuntime, post: MockRuntime) -> bool {
    &&& post.entries == pre.entries
    &&& post.program_accounts == pre.program_accounts
    &&& post.data_accounts == pre.data_accounts
    &&& post.compute_units == pre.compute_units
}

/// A copy of the byte blocks.
fn copy_blocks(data: &Vec<Vec<u8>>) -> (v: Vec<Vec<u8>>)
    ensures
        v@.map_values(|b: Vec<u8>| b@) == data@.map_values(|b: Vec<u8>| b@),
{
    let mut v: Vec<Vec<u8>> = Vec::new();
    let mut i: usize = 0;
    while i < data.len()
        invariant
            i <= data@.len(),
            v@.len() == i,
            forall|j: int| 0 <= j < i ==> (#[trigger] v@[j])@ == data@[j]@,
        decreases data@.len() - i,
    {
        let block = copy_prefix(&data[i], data[i].len());
        proof {
            assert(block@ =~= data@[i as int]@);
        }
        v.push(block);
        i += 1;
    }
    proof {
        assert(v@.map_values(|b: Vec<u8>| b@) =~= data@.map_values(|b: Vec<u8>| b@));
    }
    v
}

impl Runtime for MockRuntime {
    /// A checked dispatch first validates; a validation failure is returned
    /// at once, with nothing logged and nothing reached. A dispatch that
    /// passes validation runs the registered behaviour with the full depth
    /// budget; only the log buffer changes, and the live accounts are never
    /// copied or altered by the backend itself.
    open spec fn invoke_post(
        pre: MockRuntime,
        post: MockRuntime,
        target: Seq<u8>,
        metas: Seq<AccountMeta>,
        data: Seq<u8>,
        handles: Seq<usize>,
        set_pre: Seq<AccountInfo>,
        set_post: Seq<AccountInfo>,
        signers: Seq<SignerProof>,
        r: ProgramResult,
    ) -> bool {
        &&& set_post == set_pre
        &&& same_except_logs(pre, post)
        &&& match spec_validate(metas, handles, set_pre) {
            Err(e) => r == Err::<(), ProgramError>(e) && post.logs == pre.logs,
            Ok(()) => {
                let run = spec_run(
                    pre.entries@,
                    pre.program_accounts@,
                    target,
                    metas,
                    data,
                    handles,
                    set_pre,
                    MAX_CALL_DEPTH as nat,
                );
                log_views(post.logs@) == log_views(pre.logs@) + run.0 && r == run.1
            },
        }
    }

    /// The unchecked dispatch skips validation entirely and runs the
    /// registered behaviour directly.
    open spec fn invoke_unchecked_post(
        pre: MockRuntime,
        post: MockRuntime,
        target: Seq<u8>,
        metas: Seq<AccountMeta>,
        data: Seq<u8>,
        handles: Seq<usize>,
        set_pre: Seq<AccountInfo>,
        set_post: Seq<AccountInfo>,
        signers: Seq<SignerProof>,
        r: ProgramResult,
    ) -> bool {
        &&& set_post == set_pre
        &&& same_except_logs(pre, post)
        &&& ({
            let run = spec_run(
                pre.entries@,
                pre.program_accounts@,
                target,
                metas,
                data,
                handles,
                set_pre,
                MAX_CALL_DEPTH as nat,
            );
            log_views(post.logs@) == log_views(pre.logs@) + run.0 && r == run.1
        })
    }

    open spec fn logged_message(pre: MockRuntime, post: MockRuntime, message: Seq<char>) -> bool {
        &&& same_except_logs(pre, post)
        &&& log_views(post.logs@) == log_views(pre.logs@).push(LogView::Message(message))
    }

    open spec fn logged_words(
        pre: MockRuntime,
        post: MockRuntime,
        a1: u64,
        a2: u64,
        a3: u64,
        a4: u64,
        a5: u64,
    ) -> bool {
        &&& same_except_logs(pre, post)
        &&& log_views(post.logs@) == log_views(pre.logs@).push(LogView::Words(a1, a2, a3, a4, a5))
    }

    open spec fn logged_bytes(pre: MockRuntime, post: MockRuntime, blocks: Seq<Seq<u8>>) -> bool {
        &&& same_except_logs(pre, post)
        &&& log_views(post.logs@) == log_views(pre.logs@).push(LogView::Bytes(blocks))
    }

    open spec fn logged_compute_units(pre: MockRuntime, post: MockRuntime) -> bool {
        &&& same_except_logs(pre, post)
        &&& log_views(post.logs@) == log_views(pre.logs@).push(
            LogView::ComputeUnits(pre.compute_units),
        )
    }

    open spec fn derives_addresses() -> bool {
        true
    }

    open spec fn derived_post(
        pre: MockRuntime,
        post: MockRuntime,
        seeds: Seq<Seq<u8>>,
        program_id: Seq<u8>,
        r: Result<Pubkey, ProgramError>,
    ) -> bool {
        &&& post == pre
        &&& derive_result_matches(seeds, program_id, r)
    }

    fn sol_log(&mut self, message: &str) {
        let ghost logs0 = self.logs@;
        let entry = LogEntry::Message(message.to_owned());
        let ghost snapshot = entry;
        self.logs.push(entry);
        proof {
            lemma_log_views_push(logs0, snapshot);
        }
    }

    fn sol_log_64(&mut self, arg1: u64, arg2: u64, arg3: u64, arg4: u64, arg5: u64) {
        let ghost logs0 = self.logs@;
        self.logs.push(LogEntry::Words(arg1, arg2, arg3, arg4, arg5));
        proof {
            lemma_log_views_push(logs0, LogEntry::Words(arg1, arg2, arg3, arg4, arg5));
        }
    }

    fn sol_log_data(&mut self, data: &Vec<Vec<u8>>) {
        let ghost logs0 = self.logs@;
        let entry = LogEntry::Bytes(copy_blocks(data));
        let ghost snapshot = entry;
        self.logs.push(entry);
        proof {
            lemma_log_views_push(logs0, snapshot);
        }
    }

    fn sol_log_compute_units(&mut self) {
        let ghost logs0 = self.logs@;
        let cu = self.compute_units;
        self.logs.push(LogEntry::ComputeUnits(cu));
        proof {
            lemma_log_views_push(logs0, LogEntry::ComputeUnits(cu));
        }
    }

    fn invoke_signed(
        &mut self,
        ix: &Instruction,
        handles: &Vec<usize>,
        set: &mut Vec<AccountInfo>,
        signers: &Vec<SignerProof>,
    ) -> (r: ProgramResult) {
        match validate_dispatch(&ix.accounts, handles, set) {
            Err(e) => Err(e),
            Ok(()) => self.run_program(
                ix.program_id,
                &ix.accounts,
                &ix.data,
                handles,
                set,
                MAX_CALL_DEPTH,
            ),
        }
    }

    fn invoke_signed_access_unchecked(
        &mut self,
        ix: &Instruction,
        handles: &Vec<usize>,
        set: &mut Vec<AccountInfo>,
        signers: &Vec<SignerProof>,
    ) -> (r: ProgramResult) {
        self.run_program(ix.program_id, &ix.accounts, &ix.data, handles, set, MAX_CALL_DEPTH)
    }

    fn sol_create_program_address(
        &mut self,
        seeds: &Vec<Vec<u8>>,
        program_id: &Pubkey,
    ) -> (r: Result<Pubkey, ProgramError>) {
        create_program_address_host(seeds, program_id)
    }
}

/// The log entries that printing one byte slice produces: one word line
/// per byte, in index order.
pub open spec fn slice_log_views(slice: Seq<u8>) -> Seq<LogView> {
    Seq::new(slice.len(), |i: int| LogView::Words(0, 0, 0, i as u64, slice[i] as u64))
}

/// The log entries that printing one account's fields produces.
pub open spec fn account_log_views(index: u64, a: AccountInfo) -> Seq<LogView> {
    seq![
        LogView::Message("AccountInfo"@),
        LogView::Words(0, 0, 0, 0, index),
        LogView::Message("- Is signer"@),
        LogView::Words(0, 0, 0, 0, (if a.is_signer { 1u64 } else { 0u64 })),
        LogView::Message("- Key"@),
        LogView::Bytes(seq![a.key@]),
        LogView::Message("- Lamports"@),
        LogView::Words(0, 0, 0, 0, a.lamports),
        LogView::Message("- Account data length"@),
        LogView::Words(0, 0, 0, 0, a.data@.len() as u64),
        LogView::Message("- Owner"@),
        LogView::Bytes(seq![a.owner@]),
    ]
}

/// The log entries that printing the accounts produces, in account order.
pub open spec fn accounts_log_views(accounts: Seq<AccountInfo>) -> Seq<LogView>
    decreases accounts.len(),
{
    if accounts.len() == 0 {
        Seq::<LogView>::empty()
    } else {
        accounts_log_views(accounts.drop_last()) + account_log_views(
            (accounts.len() - 1) as u64,
            accounts.last(),
        )
    }
}

/// The log entries that printing a call frame's parameters produces: each
/// account's fields in order, then the payload header and bytes.
pub open spec fn params_log_views(accounts: Seq<AccountInfo>, data: Seq<u8>) -> Seq<LogView> {
    accounts_log_views(accounts) + seq![LogView::Message("Instruction data"@)] + slice_log_views(
        data,
    )
}

impl MockRuntime {
    /// Print every byte of a slice to the log, one word line per byte, in
    /// index order.
    pub fn sol_log_slice(&mut self, slice: &Vec<u8>)
        ensures
            same_except_logs(*old(self), *final(self)),
            log_views(final(self).logs@) == log_views(old(self).logs@) + slice_log_views(slice@),
    {
        let ghost logs0 = self.logs@;
        let mut i: usize = 0;
        while i < slice.len()
            invariant
                i <= slice@.len(),
                same_except_logs(*old(self), *self),
                log_views(self.logs@) =~= log_views(logs0) + slice_log_views(
                    slice@.subrange(0, i as int),
                ),
                logs0 == old(self).logs@,
            decreases slice@.len() - i,
        {
            self.sol_log_64(0, 0, 0, i as u64, slice[i] as u64);
            proof {
                assert(log_views(self.logs@) =~= log_views(logs0) + slice_log_views(
                    slice@.subrange(0, i + 1 as int),
                ));
            }
            i += 1;
        }
        proof {
            assert(slice@.subrange(0, slice@.len() as int) =~= slice@);
        }
    }

    /// Print a call frame's input parameters to the log: each account's
    /// fields, then the payload bytes.
    pub fn sol_log_params(&mut self, accounts: &Vec<AccountInfo>, data: &Vec<u8>)
        ensures
            same_except_logs(*old(self), *final(self)),
            log_views(final(self).logs@) == log_views(old(self).logs@) + params_log_views(
                accounts@,
                data@,
            ),
    {
        let ghost logs0 = self.logs@;
        let mut i: usize = 0;
        while i < accounts.len()
            invariant
                i <= accounts@.len(),
                same_except_logs(*old(self), *self),
                log_views(self.logs@) =~= log_views(logs0) + accounts_log_views(
                    accounts@.subrange(0, i as int),
                ),
                logs0 == old(self).logs@,
            decreases accounts@.len() - i,
        {
            let account = &accounts[i];
            self.sol_log("AccountInfo");
            self.sol_log_64(0, 0, 0, 0, i as u64);
            self.sol_log("- Is signer");
            self.sol_log_64(0, 0, 0, 0, if account.is_signer() { 1 } else { 0 });
            self.sol_log("- Key");
            let mut key_block: Vec<Vec<u8>> = Vec::new();
            key_block.push(account.key().to_vec());
            proof {
                assert(key_block@.map_values(|d: Vec<u8>| d@) =~= seq![accounts@[i as int].key@]);
            }
            self.sol_log_data(&key_block);
            self.sol_log("- Lamports");
            self.sol_log_64(0, 0, 0, 0, account.lamports());
            self.sol_log("- Account data length");
            self.sol_log_64(0, 0, 0, 0, account.data_len() as u64);
            self.sol_log("- Owner");
            let mut owner_block: Vec<Vec<u8>> = Vec::new();
            owner_block.push(account.owner.to_vec());
            proof {
                assert(owner_block@.map_values(|d: Vec<u8>| d@) =~= seq![
                    accounts@[i as int].owner@,
                ]);
            }
            self.sol_log_data(&owner_block);
            proof {
                let prefix = accounts@.subrange(0, i + 1 as int);
                assert(prefix.drop_last() =~= accounts@.subrange(0, i as int));
                assert(prefix.last() == accounts@[i as int]);
                assert(log_views(self.logs@) =~= log_views(logs0) + accounts_log_views(prefix));
            }
            i += 1;
        }
        proof {
            assert(accounts@.subrange(0, accounts@.len() as int) =~= accounts@);
        }
        self.sol_log("Instruction data");
        self.sol_log_slice(data);
        proof {
            assert(log_views(self.logs@) =~= log_views(old(self).logs@) + params_log_views(
                accounts@,
                data@,
            ));
        }
    }
}

/// The address derived from the given seeds under the given program, if the
/// derivation lands off the curve; the result depends on the seeds and the
/// program identifier alone.
pub uninterp spec fn spec_derived_address(seeds: Seq<Seq<u8>>, program_id: Seq<u8>) -> Option<
    Seq<u8>,
>;

/// The derived address and bump found for the given seeds under the given
/// program; the result depends on the seeds and the program identifier
/// alone.
pub uninterp spec fn spec_found_address(seeds: Seq<Seq<u8>>, program_id: Seq<u8>) -> Option<
    (Seq<u8>, u8),
>;

/// A seed list within the documented limits: not too many seeds, none too
/// long.
pub open spec fn seed_lengths_ok(seeds: Seq<Seq<u8>>) -> bool {
    &&& seeds.len() <= MAX_SEEDS
    &&& forall|i: int| 0 <= i < seeds.len() ==> (#[trigger] seeds[i]).len() <= MAX_SEED_LEN
}

/// How one address derivation relates to its inputs: seed lists over the
/// documented limits are rejected outright; otherwise the derivation either
/// names an address or rejects the seeds.
pub open spec fn derive_result_matches(
    seeds: Seq<Seq<u8>>,
    program_id: Seq<u8>,
    r: Result<Pubkey, ProgramError>,
) -> bool {
    if !seed_lengths_ok(seeds) {
        r == Err::<Pubkey, ProgramError>(ProgramError::MaxSeedLengthExceeded)
    } else {
        match spec_derived_address(seeds, program_id) {
            Some(a) => r matches Ok(k) && k@ == a,
            None => r == Err::<Pubkey, ProgramError>(ProgramError::InvalidSeeds),
        }
    }
}

/// Relies on solana_pubkey::Pubkey::create_program_address: it rejects seed
/// lists over the documented limits with a length error, and otherwise
/// deterministically derives an address from the seeds and the program
/// identifier alone, rejecting seeds whose derivation is invalid.
#[verifier::external_body]
fn create_program_address_host(seeds: &Vec<Vec<u8>>, program_id: &Pubkey) -> (r: Result<Pubkey, ProgramError>)
    ensures
        !seed_lengths_ok(seeds@.map_values(|s: Vec<u8>| s@)) ==> (r == Err::<Pubkey, ProgramError>(
            ProgramError::MaxSeedLengthExceeded,
        )),
        seed_lengths_ok(seeds@.map_values(|s: Vec<u8>| s@)) ==> (match spec_derived_address(
            seeds@.map_values(|s: Vec<u8>| s@),
            program_id@,
        ) {
            Some(a) => r matches Ok(k) && k@ == a,
            None => r == Err::<Pubkey, ProgramError>(ProgramError::InvalidSeeds),
        }),
{
    let seed_slices: Vec<&[u8]> = seeds.iter().map(|s| s.as_slice()).collect();
    let host_id = solana_pubkey::Pubkey::new_from_array(program_id.bytes);
    match solana_pubkey::Pubkey::create_program_address(&seed_slices, &host_id) {
        Ok(key) => Ok(Pubkey { bytes: key.to_bytes() }),
        Err(solana_pubkey::PubkeyError::MaxSeedLengthExceeded) => {
            Err(ProgramError::MaxSeedLengthExceeded)
        },
        Err(solana_pubkey::PubkeyError::InvalidSeeds) => Err(ProgramError::InvalidSeeds),
        Err(solana_pubkey::PubkeyError::IllegalOwner) => Err(ProgramError::IllegalOwner),
    }
}

/// How one bump search relates to its inputs: the search either finds an
/// address with its bump or finds none, from the seeds and the program
/// identifier alone.
pub open spec fn found_result_matches(
    seeds: Seq<Seq<u8>>,
    program_id: Seq<u8>,
    r: Option<(Pubkey, u8)>,
) -> bool {
    match spec_found_address(seeds, program_id) {
        Some(pair) => r matches Some(found) && found.0@ == pair.0 && found.1 == pair.1,
        None => r is None,
    }
}

/// Relies on solana_pubkey::Pubkey::try_find_program_address: it searches
/// bump values for a valid derivation, deterministically from the seeds and
/// the program identifier alone, and finds nothing for seed lists at or
/// over the seed-count limit. A found address is exactly a successful
/// derivation on the seeds extended by the found bump, so the source also
/// shows that extended seed list within the limits.
#[verifier::external_body]
fn try_find_program_address_host(seeds: &Vec<Vec<u8>>, program_id: &Pubkey) -> (r: Option<(Pubkey, u8)>)
    ensures
        (match spec_found_address(seeds@.map_values(|s: Vec<u8>| s@), program_id@) {
            Some(pair) => r matches Some(found) && found.0@ == pair.0 && found.1 == pair.1,
            None => r is None,
        }),
        seeds@.len() >= MAX_SEEDS ==> r is None,
        r matches Some(found) ==> (spec_derived_address(
            seeds@.map_values(|s: Vec<u8>| s@).push(seq![found.1]),
            program_id@,
        ) == Some(found.0@)),
        r matches Some(found) ==> seed_lengths_ok(
            seeds@.map_values(|s: Vec<u8>| s@).push(seq![found.1]),
        ),
{
    let seed_slices: Vec<&[u8]> = seeds.iter().map(|s| s.as_slice()).collect();
    let host_id = solana_pubkey::Pubkey::new_from_array(program_id.bytes);
    solana_pubkey::Pubkey::try_find_program_address(&seed_slices, &host_id)
        .map(|(key, bump)| (Pubkey { bytes: key.to_bytes() }, bump))
}

impl MockRuntime {
    /// Find a valid derived address and its bump for the given seeds under
    /// the given program. A found address round-trips: deriving on the
    /// seeds extended by the found bump yields exactly that address.
    pub fn try_find_program_address(
        &self,
        seeds: &Vec<Vec<u8>>,
        program_id: &Pubkey,
    ) -> (r: Option<(Pubkey, u8)>)
        ensures
            found_result_matches(seeds@.map_values(|s: Vec<u8>| s@), program_id@, r),
            seeds@.len() >= MAX_SEEDS ==> r is None,
            r matches Some(found) ==> derive_result_matches(
                seeds@.map_values(|s: Vec<u8>| s@).push(seq![found.1]),
                program_id@,
                Ok(found.0),
            ),
    {
        try_find_program_address_host(seeds, program_id)
    }
}

} // verus!
