//! A model of the cached-files area: the key file, the backend executable
//! and the version marker kept in the application's tools directory.
//!
//! The shell owns the directory on disk; this module owns the decisions
//! about it — which import file names are acceptable, what each operation
//! leaves present — so that the launch path's "backend must exist" check
//! and the import rules are verified.  Disk failures are the shell's to
//! report, as `IoError`.

use vstd::prelude::*;
use crate::errors::ToolError;
use crate::text::{eq_ignore_ascii_case, lower_spec, trim_spec, trim_str};

verus! {

/// The abstract contents of the tools directory.
pub struct CacheView {
    /// A key file is present.
    pub keys: bool,
    /// The backend executable is present.
    pub backend: bool,
    /// The contents of the version marker file, when one exists.
    pub version: Option<Seq<char>>,
}

/// What the tools directory holds: a key file, the backend executable and
/// a version marker, each independently present or absent.
pub struct ToolsCache {
    keys_present: bool,
    backend_present: bool,
    version: Option<String>,
}

impl View for ToolsCache {
    type V = CacheView;

    closed spec fn view(&self) -> CacheView {
        CacheView {
            keys: self.keys_present,
            backend: self.backend_present,
            version: match self.version {
                Some(ref v) => Some(v@),
                None => None,
            },
        }
    }
}

/// A file name the backend import accepts, up to ASCII case: the installed
/// name of the executable, or its full release-artifact name.
pub open spec fn is_valid_backend_filename(name: Seq<char>) -> bool {
    lower_spec(name) == lower_spec("nscb_rust.exe"@) || lower_spec(name) == lower_spec(
        "nscb_rust-x86_64-pc-windows-msvc.exe"@,
    )
}

/// The cache state after importing a backend file with the given name: a
/// valid name installs the executable (overwriting any previous copy), an
/// invalid one changes nothing.
pub open spec fn import_backend_spec(cv: CacheView, name: Seq<char>) -> CacheView {
    if is_valid_backend_filename(name) {
        CacheView { backend: true, ..cv }
    } else {
        cv
    }
}

impl ToolsCache {
    /// A fresh tools directory holds nothing.
    pub fn new() -> (c: ToolsCache)
        ensures
            !c@.keys,
            !c@.backend,
            c@.version is None,
    {
        ToolsCache { keys_present: false, backend_present: false, version: None }
    }

    /// Whether a key file is cached.
    pub fn has_keys(&self) -> (r: bool)
        ensures
            r == self@.keys,
    {
        self.keys_present
    }

    /// Whether the backend executable is cached; the launch validation
    /// takes its answer from here.
    pub fn has_backend(&self) -> (r: bool)
        ensures
            r == self@.backend,
    {
        self.backend_present
    }

    /// Record that the key file was copied in.  Importing keys overwrites
    /// any previous copy and touches nothing else.
    pub fn import_keys(&mut self)
        ensures
            final(self)@.keys,
            final(self)@.backend == old(self)@.backend,
            final(self)@.version == old(self)@.version,
    {
        self.keys_present = true;
    }

    /// Validate a backend import by its source file name and record the
    /// copy when the name is acceptable.  A second import of the same file
    /// lands in the same state, without error.
    pub fn import_backend(&mut self, filename: &str) -> (r: Result<(), ToolError>)
        ensures
            final(self)@ == import_backend_spec(old(self)@, filename@),
            r is Ok <==> is_valid_backend_filename(filename@),
            !is_valid_backend_filename(filename@) ==> (r matches Err(e) && e
                == ToolError::ConfigurationError),
    {
        let ok = eq_ignore_ascii_case(filename, "nscb_rust.exe") || eq_ignore_ascii_case(
            filename,
            "nscb_rust-x86_64-pc-windows-msvc.exe",
        );
        if ok {
            self.backend_present = true;
            Ok(())
        } else {
            Err(ToolError::ConfigurationError)
        }
    }

    /// Record that a freshly downloaded backend executable was written to
    /// its cached location.
    pub fn record_download(&mut self)
        ensures
            final(self)@.backend,
            final(self)@.keys == old(self)@.keys,
            final(self)@.version == old(self)@.version,
    {
        self.backend_present = true;
    }

    /// Overwrite the version marker.
    pub fn save_version(&mut self, version: &str)
        ensures
            final(self)@.version == Some(version@),
            final(self)@.keys == old(self)@.keys,
            final(self)@.backend == old(self)@.backend,
    {
        self.version = Some(version.to_owned());
    }

    /// The cached backend version: the marker's contents trimmed of
    /// surrounding whitespace, or the empty string when no marker exists.
    pub fn get_version(&self) -> (r: String)
        ensures
            match self@.version {
                Some(v) => r@ == trim_spec(v),
                None => r@ == Seq::<char>::empty(),
            },
    {
        match &self.version {
            Some(v) => trim_str(v.as_str()),
            None => String::new(),
        }
    }
}

/// Importing the same backend file twice is idempotent: the second import
/// returns the same verdict and leaves the same end state as the first —
/// a single cached copy, overwritten, with no error on the repeat.
pub proof fn lemma_import_backend_idempotent(cv: CacheView, name: Seq<char>)
    ensures
        import_backend_spec(import_backend_spec(cv, name), name) == import_backend_spec(cv, name),
{
}

} // verus!
