//! Secure file erasure: a verified core for overwriting file contents in
//! place with pseudorandom data across one or more passes, deciding how a
//! target path is handled, and aggregating per-file results.
//!
//! All file and console I/O lives outside this crate; the types here model
//! the decisions and the byte-level overwrite algorithm, and an unverified
//! driver performs the actual reads, writes and prompts.

use vstd::prelude::*;

pub mod shred;

verus! {

use core::cmp::Ordering;

/// How much diagnostic output a run produces, ordered from silent to chatty.
/// `Silent` produces no output at all.
#[derive(Debug, Clone, Copy, PartialEq, Eq, Structural)]
pub enum Verbosity {
    Silent,
    Low,
    Average,
    High,
}

impl Verbosity {
    /// The numeric rank of this level: `Silent` is 0, `High` is 3.
    pub open spec fn level(self) -> int {
        match self {
            Verbosity::Silent => 0,
            Verbosity::Low => 1,
            Verbosity::Average => 2,
            Verbosity::High => 3,
        }
    }

    /// The numeric discriminant backing the total order on levels.
    pub fn discriminant(&self) -> (d: i8)
        ensures
            d as int == self.level(),
    {
        match self {
            Verbosity::Silent => 0,
            Verbosity::Low => 1,
            Verbosity::Average => 2,
            Verbosity::High => 3,
        }
    }

    /// True when this level is at least `other`: output gated at `other`
    /// is produced under this level.
    pub fn at_least(&self, other: &Verbosity) -> (b: bool)
        ensures
            b <==> self.level() >= other.level(),
    {
        self.discriminant() >= other.discriminant()
    }
}

impl PartialOrd for Verbosity {
    fn partial_cmp(&self, other: &Self) -> (r: Option<Ordering>) {
        let a = self.discriminant();
        let b = other.discriminant();
        if a < b {
            Some(Ordering::Less)
        } else if a == b {
            Some(Ordering::Equal)
        } else {
            Some(Ordering::Greater)
        }
    }
}

impl vstd::std_specs::cmp::PartialOrdSpecImpl for Verbosity {
    open spec fn obeys_partial_cmp_spec() -> bool {
        true
    }

    open spec fn partial_cmp_spec(&self, other: &Self) -> Option<Ordering> {
        if self.level() < other.level() {
            Some(Ordering::Less)
        } else if self.level() == other.level() {
            Some(Ordering::Equal)
        } else {
            Some(Ordering::Greater)
        }
    }
}

/// What the resolved metadata of the target path reported: the path is
/// absent, names a regular file, or names a directory.
#[derive(Debug, Clone, Copy, PartialEq, Eq, Structural)]
pub enum TargetStatus {
    Missing,
    RegularFile,
    Directory,
}

/// What a run does with its target, decided once from the target's status
/// and the configuration before any file is touched.
#[derive(Debug, Clone, Copy, PartialEq, Eq, Structural)]
pub enum RunAction {
    /// The path does not exist: abort the whole run with an error.
    AbortMissing,
    /// The path is a regular file: shred that one file.
    ShredSingle,
    /// The path is a directory but recursion is off: abort with an error
    /// without touching any file beneath it.
    AbortDirectory,
    /// The path is a directory and recursion is on: shred every regular
    /// file beneath it.
    WalkDirectory,
}

/// Every parameter of a run, assembled once through the builder methods and
/// read-only afterwards.
#[derive(Debug, Clone, Copy)]
pub struct ShredConfiguration<'a> {
    pub verbosity: Verbosity,
    pub is_recursive: bool,
    pub is_interactive: bool,
    pub rewrite_iterations: u8,
    pub keep_files: bool,
    pub raw_path: &'a str,
}

impl<'a> ShredConfiguration<'a> {
    /// The defaults: interactive, non-recursive, three overwrite passes,
    /// files deleted afterwards, silent.
    pub fn new(path: &'a str) -> (c: ShredConfiguration<'a>)
        ensures
            c == (ShredConfiguration {
                verbosity: Verbosity::Silent,
                is_recursive: false,
                is_interactive: true,
                rewrite_iterations: 3,
                keep_files: false,
                raw_path: path,
            }),
    {
        ShredConfiguration {
            raw_path: path,
            is_interactive: true,
            is_recursive: false,
            rewrite_iterations: 3,
            keep_files: false,
            verbosity: Verbosity::Silent,
        }
    }

    pub fn set_verbosity(self, verbosity: Verbosity) -> (c: ShredConfiguration<'a>)
        ensures
            c == (ShredConfiguration { verbosity, ..self }),
    {
        ShredConfiguration { verbosity, ..self }
    }

    pub fn set_is_recursive(self, is_recursive: bool) -> (c: ShredConfiguration<'a>)
        ensures
            c == (ShredConfiguration { is_recursive, ..self }),
    {
        ShredConfiguration { is_recursive, ..self }
    }

    pub fn set_is_interactive(self, is_interactive: bool) -> (c: ShredConfiguration<'a>)
        ensures
            c == (ShredConfiguration { is_interactive, ..self }),
    {
        ShredConfiguration { is_interactive, ..self }
    }

    pub fn set_keep_files(self, is_keep_files: bool) -> (c: ShredConfiguration<'a>)
        ensures
            c == (ShredConfiguration { keep_files: is_keep_files, ..self }),
    {
        ShredConfiguration { keep_files: is_keep_files, ..self }
    }

    pub fn set_rewrite_iterations(self, count: u8) -> (c: ShredConfiguration<'a>)
        ensures
            c == (ShredConfiguration { rewrite_iterations: count, ..self }),
    {
        ShredConfiguration { rewrite_iterations: count, ..self }
    }

    /// Finishes the builder chain; the configuration is complete as built.
    pub fn build(self) -> (c: ShredConfiguration<'a>)
        ensures
            c == self,
    {
        self
    }
}

/// The largest number of bytes generated and written in one I/O operation:
/// a pass materializes at most this much randomness at a time, so memory
/// use stays independent of file size.
pub const BATCH_SIZE: usize = 8192;

/// Relies on rand::random::<u8>: one pseudorandom byte. Nothing is promised
/// of its value; the engine only needs that every byte of a pass is freshly
/// drawn.
#[verifier::external_body]
fn random_byte() -> u8 {
    rand::random::<u8>()
}

/// A buffer of `n` freshly drawn pseudorandom bytes.
pub fn random_batch(n: usize) -> (v: Vec<u8>)
    ensures
        v@.len() == n,
{
    let mut v: Vec<u8> = Vec::new();
    while v.len() < n
        invariant
            v@.len() <= n,
        decreases n - v@.len(),
    {
        v.push(random_byte());
    }
    v
}

/// How many bytes the next batch of a pass holds when the write cursor
/// stands at `cursor` in a file of `len` bytes: a full batch, or whatever
/// is left of the pass if that is shorter.
pub open spec fn spec_batch_len(len: u64, cursor: u64) -> int {
    if len - cursor > BATCH_SIZE as int {
        BATCH_SIZE as int
    } else {
        len - cursor
    }
}

/// One instruction from the overwrite engine to the driver performing the
/// file I/O.
#[derive(Debug)]
pub enum EngineStep {
    /// Write these bytes at the current cursor, advancing it.
    Write(Vec<u8>),
    /// A pass is complete: flush the buffered writes, sync them durably to
    /// the storage device, and seek back to the start of the file.
    SyncAndRewind,
    /// Every pass is complete; no further writes follow.
    Done,
}

/// The per-file pass/batch state machine. Created once per file with the
/// file's byte length (captured before the file is truncated and fixed
/// thereafter) and the configured pass count; `step` is then called until
/// it answers `Done`, and the driver performs each instruction against the
/// real file in order. The machine never directs a write past the end of
/// the original length, and never starts a pass before the previous pass
/// has been synced and the cursor rewound.
#[derive(Debug, Clone, Copy, PartialEq, Eq, Structural)]
pub struct OverwriteEngine {
    /// The file's byte length at the moment it was opened; never changes.
    pub file_length: u64,
    /// How many overwrite passes the whole run performs on this file.
    pub passes_total: u8,
    /// How many passes have been completed (written, flushed and synced).
    pub passes_done: u8,
    /// The write position of the current pass, from 0 to `file_length`.
    pub cursor: u64,
}

impl OverwriteEngine {
    /// The state invariant: the cursor stays inside the file and no more
    /// passes are done than were asked for.
    pub open spec fn wf(self) -> bool {
        &&& self.cursor <= self.file_length
        &&& self.passes_done <= self.passes_total
    }

    pub fn new(file_length: u64, passes_total: u8) -> (e: OverwriteEngine)
        ensures
            e == (OverwriteEngine { file_length, passes_total, passes_done: 0, cursor: 0 }),
            e.wf(),
    {
        OverwriteEngine { file_length, passes_total, passes_done: 0, cursor: 0 }
    }

    /// The next instruction for the driver. Exactly one of three things
    /// happens: every pass is already done and the machine stops; the
    /// current pass still has bytes to cover and a fresh random batch is
    /// produced for the next cursor positions; or the current pass has
    /// covered the whole length and is sealed with a flush-sync-rewind
    /// barrier before the next pass may begin.
    pub fn step(&mut self) -> (s: EngineStep)
        requires
            old(self).wf(),
        ensures
            final(self).wf(),
            final(self).file_length == old(self).file_length,
            final(self).passes_total == old(self).passes_total,
            (s is Done) <==> old(self).passes_done == old(self).passes_total,
            (s is Write) <==> (old(self).passes_done < old(self).passes_total
                && old(self).cursor < old(self).file_length),
            (s is SyncAndRewind) <==> (old(self).passes_done < old(self).passes_total
                && old(self).cursor == old(self).file_length),
            (s is Done) ==> *final(self) == *old(self),
            s matches EngineStep::Write(data) ==> {
                &&& data@.len() == spec_batch_len(old(self).file_length, old(self).cursor)
                &&& data@.len() > 0
                &&& old(self).cursor + data@.len() <= old(self).file_length
                &&& final(self).cursor == old(self).cursor + data@.len()
                &&& final(self).passes_done == old(self).passes_done
            },
            (s is SyncAndRewind) ==> {
                &&& final(self).cursor == 0
                &&& final(self).passes_done == old(self).passes_done + 1
            },
    {
        if self.passes_done == self.passes_total {
            EngineStep::Done
        } else if self.cursor < self.file_length {
            let remaining = self.file_length - self.cursor;
            let n: usize = if remaining > BATCH_SIZE as u64 {
                BATCH_SIZE
            } else {
                remaining as usize
            };
            let data = random_batch(n);
            self.cursor = self.cursor + n as u64;
            EngineStep::Write(data)
        } else {
            self.cursor = 0;
            self.passes_done = self.passes_done + 1;
            EngineStep::SyncAndRewind
        }
    }
}

/// Overwrites `content[offset .. offset + data.len()]` with `data`, leaving
/// every byte outside that range, and the overall length, unchanged.
pub fn apply_write(content: &mut Vec<u8>, offset: usize, data: &Vec<u8>)
    requires
        offset + data@.len() <= old(content)@.len(),
    ensures
        final(content)@.len() == old(content)@.len(),
        forall|i: int|
            0 <= i < data@.len() ==> final(content)@[offset + i] == data@[i],
        forall|i: int|
            0 <= i < old(content)@.len() && !(offset <= i < offset + data@.len())
                ==> final(content)@[i] == old(content)@[i],
{
    let total = content.len();
    assert(content@.len() == total);
    let mut k: usize = 0;
    while k < data.len()
        invariant
            k <= data@.len(),
            offset + data@.len() <= content@.len() <= usize::MAX,
            content@.len() == old(content)@.len(),
            forall|i: int| 0 <= i < k ==> content@[offset + i] == data@[i],
            forall|i: int|
                0 <= i < old(content)@.len() && !(offset <= i < offset + data@.len())
                    ==> content@[i] == old(content)@[i],
        decreases data@.len() - k,
    {
        content.set(offset + k, data[k]);
        k = k + 1;
    }
}

/// Runs the whole overwrite engine against an in-memory byte buffer: the
/// same pass/batch algorithm the driver applies to a real file, with the
/// flush-sync-rewind barrier a no-op on memory. The buffer keeps its exact
/// length through every pass, and a pass count of zero leaves every byte
/// untouched.
pub fn shred_buffer(content: &mut Vec<u8>, passes: u8)
    ensures
        final(content)@.len() == old(content)@.len(),
        passes == 0 ==> final(content)@ == old(content)@,
{
    let file_length = content.len() as u64;
    let mut engine = OverwriteEngine::new(file_length, passes);
    loop
        invariant
            engine.wf(),
            engine.file_length == file_length,
            engine.passes_total == passes,
            file_length == content@.len(),
            content@.len() == old(content)@.len(),
            passes == 0 ==> content@ == old(content)@,
        ensures
            content@.len() == old(content)@.len(),
            passes == 0 ==> content@ == old(content)@,
        decreases
            engine.passes_total - engine.passes_done,
            engine.file_length - engine.cursor,
    {
        let start = engine.cursor;
        let s = engine.step();
        match s {
            EngineStep::Done => {
                break;
            },
            EngineStep::Write(data) => {
                apply_write(content, start as usize, &data);
            },
            EngineStep::SyncAndRewind => {},
        }
    }
}

/// The shredding run itself: holds the configuration and decides, step by
/// step, what the unverified driver must do to the filesystem.
pub struct Shredder<'a> {
    pub configuration: ShredConfiguration<'a>,
}

impl<'a> Shredder<'a> {
    pub fn with_options(configuration: ShredConfiguration<'a>) -> (s: Shredder<'a>)
        ensures
            s.configuration == configuration,
    {
        Shredder { configuration }
    }

    /// The one decision made per run: how the target is handled, from the
    /// target's resolved status and the recursion flag. A missing path and
    /// a directory without recursion abort before any file I/O; nothing
    /// else does.
    pub fn plan_run(&self, target: TargetStatus) -> (a: RunAction)
        ensures
            a is AbortMissing <==> target is Missing,
            a is ShredSingle <==> target is RegularFile,
            a is WalkDirectory <==> (target is Directory && self.configuration.is_recursive),
            a is AbortDirectory <==> (target is Directory && !self.configuration.is_recursive),
    {
        match target {
            TargetStatus::Missing => RunAction::AbortMissing,
            TargetStatus::RegularFile => RunAction::ShredSingle,
            TargetStatus::Directory => {
                if self.configuration.is_recursive {
                    RunAction::WalkDirectory
                } else {
                    RunAction::AbortDirectory
                }
            },
        }
    }

    /// Whether the driver must ask for confirmation before a file's first
    /// pass: exactly in interactive mode.
    pub fn wants_confirmation(&self) -> (b: bool)
        ensures
            b == self.configuration.is_interactive,
    {
        self.configuration.is_interactive
    }

    /// Whether a shredded file's directory entry is removed after its last
    /// pass: exactly when keep-files is off.
    pub fn removes_file_after(&self) -> (b: bool)
        ensures
            b == !self.configuration.keep_files,
    {
        !self.configuration.keep_files
    }

    /// Whether the emptied directory tree is removed after a recursive
    /// walk, mirroring the keep-files policy at the directory level.
    pub fn removes_tree_after(&self) -> (b: bool)
        ensures
            b == !self.configuration.keep_files,
    {
        !self.configuration.keep_files
    }

    /// Whether the processed-file count is reported after a directory
    /// walk: at every verbosity above silent.
    pub fn reports_summary(&self) -> (b: bool)
        ensures
            b == !(self.configuration.verbosity is Silent),
    {
        !matches!(self.configuration.verbosity, Verbosity::Silent)
    }

    /// A fresh overwrite engine for one file of `file_length` bytes, with
    /// the configured pass count and nothing done yet.
    pub fn engine_for_file(&self, file_length: u64) -> (e: OverwriteEngine)
        ensures
            e == (OverwriteEngine {
                file_length,
                passes_total: self.configuration.rewrite_iterations,
                passes_done: 0,
                cursor: 0,
            }),
            e.wf(),
    {
        OverwriteEngine::new(file_length, self.configuration.rewrite_iterations)
    }
}

/// Whether one line of console input, already trimmed of surrounding
/// whitespace, confirms a destructive action: exactly the single-character
/// answers "y" and "Y" do, and every other answer declines.
pub fn is_affirmative(input: &str) -> (b: bool)
    ensures
        b <==> (input@.len() == 1 && (input@[0] == 'y' || input@[0] == 'Y')),
{
    if input.unicode_len() != 1 {
        false
    } else {
        let c = input.get_char(0);
        c == 'y' || c == 'Y'
    }
}

/// What became of one visited file. Only `Shredded` files enter the
/// processed-file count; a skipped or failed file never aborts the rest of
/// a directory walk.
#[derive(Debug, Clone, PartialEq, Eq)]
pub enum ShredOutcome {
    /// Every pass completed and the keep-files policy was applied.
    Shredded,
    /// The user declined the confirmation prompt; the file is untouched.
    Skipped,
    /// The file could not be opened for writing or its path could not be
    /// canonicalized; the reported reason is carried along.
    Failed(String),
}

/// How many of the outcomes so far report a successfully shredded file.
pub open spec fn spec_count_shredded(s: Seq<ShredOutcome>) -> int
    decreases s.len(),
{
    if s.len() == 0 {
        0
    } else {
        spec_count_shredded(s.drop_last()) + if s.last() is Shredded {
            1int
        } else {
            0int
        }
    }
}

/// A run over outcomes in which every file was shredded counts exactly one
/// file per outcome: a directory walk that shreds all of the N regular
/// files it visits reports a processed-file count of N.
pub proof fn lemma_all_shredded_full_count(s: Seq<ShredOutcome>)
    requires
        forall|i: int| 0 <= i < s.len() ==> s[i] is Shredded,
    ensures
        spec_count_shredded(s) == s.len(),
    decreases s.len(),
{
    if s.len() > 0 {
        lemma_all_shredded_full_count(s.drop_last());
    }
}

/// The processed-file count a directory walk reports: how many of the
/// visited files were actually shredded. Declined and failed files are
/// visited but not counted.
pub fn count_shredded(outcomes: &Vec<ShredOutcome>) -> (n: usize)
    ensures
        n == spec_count_shredded(outcomes@),
{
    let mut n: usize = 0;
    let mut k: usize = 0;
    while k < outcomes.len()
        invariant
            k <= outcomes@.len(),
            n == spec_count_shredded(outcomes@.take(k as int)),
            n <= k,
        decreases outcomes@.len() - k,
    {
        proof {
            assert(outcomes@.take(k as int + 1).drop_last() =~= outcomes@.take(k as int));
            assert(outcomes@.take(k as int + 1).last() == outcomes@[k as int]);
        }
        if matches!(outcomes[k], ShredOutcome::Shredded) {
            n = n + 1;
        }
        k = k + 1;
    }
    proof {
        assert(outcomes@.take(outcomes@.len() as int) =~= outcomes@);
    }
    n
}

} // verus!
