//! A simpler shredding front: an options record owning its target path,
//! and a per-file overwrite that materializes each pass as one whole-file
//! buffer rather than the bounded batches of the engine at the crate root.

use vstd::prelude::*;

verus! {

use core::cmp::Ordering;

/// How much diagnostic output a run produces, ordered from silent to
/// chatty. `Silent` produces no output at all.
#[derive(Debug, Clone, Copy, PartialEq, Eq, Structural)]
pub enum Verbosity {
    Silent,
    Low,
    Average,
    High,
}

impl Verbosity {
    /// The numeric rank of this level: `Silent` is 0, `High` is 3.
    pub open spec fn level(self) -> int {
        match self {
            Verbosity::Silent => 0,
            Verbosity::Low => 1,
            Verbosity::Average => 2,
            Verbosity::High => 3,
        }
    }

    /// The numeric discriminant backing the total order on levels.
    pub fn discriminant(&self) -> (d: i8)
        ensures
            d as int == self.level(),
    {
        match self {
            Verbosity::Silent => 0,
            Verbosity::Low => 1,
            Verbosity::Average => 2,
            Verbosity::High => 3,
        }
    }

    /// True when this level is at least `other`.
    pub fn at_least(&self, other: &Verbosity) -> (b: bool)
        ensures
            b <==> self.level() >= other.level(),
    {
        self.discriminant() >= other.discriminant()
    }
}

impl PartialOrd for Verbosity {
    fn partial_cmp(&self, other: &Self) -> (r: Option<Ordering>) {
        let a = self.discriminant();
        let b = other.discriminant();
        if a < b {
            Some(Ordering::Less)
        } else if a == b {
            Some(Ordering::Equal)
        } else {
            Some(Ordering::Greater)
        }
    }
}

impl vstd::std_specs::cmp::PartialOrdSpecImpl for Verbosity {
    open spec fn obeys_partial_cmp_spec() -> bool {
        true
    }

    open spec fn partial_cmp_spec(&self, other: &Self) -> Option<Ordering> {
        if self.level() < other.level() {
            Some(Ordering::Less)
        } else if self.level() == other.level() {
            Some(Ordering::Equal)
        } else {
            Some(Ordering::Greater)
        }
    }
}

/// Every parameter of a run, owning its target path; assembled once
/// through the builder methods and read-only afterwards.
#[derive(Debug, Clone)]
pub struct ShredOptions {
    pub verbosity: Verbosity,
    pub is_recursive: bool,
    pub is_interactive: bool,
    pub rewrite_iterations: u8,
    pub keep_files: bool,
    pub path: String,
}

impl ShredOptions {
    /// The defaults: interactive, non-recursive, three overwrite passes,
    /// files deleted afterwards, silent.
    pub fn new(path: String) -> (o: ShredOptions)
        ensures
            o.path == path,
            o.is_interactive == true,
            o.is_recursive == false,
            o.rewrite_iterations == 3,
            o.keep_files == false,
            o.verbosity is Silent,
    {
        ShredOptions {
            path,
            is_interactive: true,
            is_recursive: false,
            rewrite_iterations: 3,
            keep_files: false,
            verbosity: Verbosity::Silent,
        }
    }

    pub fn set_verbosity(self, verbosity: Verbosity) -> (o: ShredOptions)
        ensures
            o == (ShredOptions { verbosity, ..self }),
    {
        ShredOptions { verbosity, ..self }
    }

    pub fn set_is_recursive(self, is_recursive: bool) -> (o: ShredOptions)
        ensures
            o == (ShredOptions { is_recursive, ..self }),
    {
        ShredOptions { is_recursive, ..self }
    }

    pub fn set_is_interactive(self, is_interactive: bool) -> (o: ShredOptions)
        ensures
            o == (ShredOptions { is_interactive, ..self }),
    {
        ShredOptions { is_interactive, ..self }
    }

    pub fn set_keep_files(self, is_keep_files: bool) -> (o: ShredOptions)
        ensures
            o == (ShredOptions { keep_files: is_keep_files, ..self }),
    {
        ShredOptions { keep_files: is_keep_files, ..self }
    }

    pub fn set_rewrite_iterations(self, count: u8) -> (o: ShredOptions)
        ensures
            o == (ShredOptions { rewrite_iterations: count, ..self }),
    {
        ShredOptions { rewrite_iterations: count, ..self }
    }

    /// Finishes the builder chain; the options are complete as built.
    pub fn build(self) -> (o: ShredOptions)
        ensures
            o == self,
    {
        self
    }
}

/// The simpler shredding run: holds the options and supplies the per-file
/// overwrite as whole-file passes.
pub struct Shredder {
    pub options: ShredOptions,
}

impl Shredder {
    pub fn with_options(options: ShredOptions) -> (s: Shredder)
        ensures
            s.options == options,
    {
        Shredder { options }
    }

    /// Whether the driver must ask for confirmation before the file's
    /// first pass: exactly in interactive mode.
    pub fn wants_confirmation(&self) -> (b: bool)
        ensures
            b == self.options.is_interactive,
    {
        self.options.is_interactive
    }

    /// Whether the shredded file's directory entry is removed after the
    /// last pass: exactly when keep-files is off.
    pub fn removes_file_after(&self) -> (b: bool)
        ensures
            b == !self.options.keep_files,
    {
        !self.options.keep_files
    }
}

/// Runs this variant's overwrite against an in-memory byte buffer: each
/// pass replaces the whole content with freshly drawn random bytes of the
/// same length, so the buffer keeps its exact length through every pass,
/// and a pass count of zero leaves every byte untouched.
pub fn overwrite_buffer(content: &mut Vec<u8>, passes: u8)
    ensures
        final(content)@.len() == old(content)@.len(),
        passes == 0 ==> final(content)@ == old(content)@,
{
    let mut done: u8 = 0;
    while done < passes
        invariant
            done <= passes,
            content@.len() == old(content)@.len(),
            passes == 0 ==> content@ == old(content)@,
        decreases passes - done,
    {
        let fresh = crate::random_batch(content.len());
        *content = fresh;
        done = done + 1;
    }
}

} // verus!
