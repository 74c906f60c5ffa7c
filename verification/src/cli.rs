//! Run options: the kind of upload, what the command line gave, and the
//! checks that turn it into a run that can start.

use vstd::prelude::*;
use crate::text::same_text;

verus! {

/// How a whole file travels in one request.
#[derive(Debug, PartialEq, Eq, Structural)]
pub enum KindOfUpload {
    /// One multipart form with the file as its only part.
    Multipart,
    /// The file's bytes as the raw request body.
    Binary,
}

impl Clone for KindOfUpload {
    fn clone(&self) -> (r: Self)
        ensures
            r == *self,
    {
        match self {
            KindOfUpload::Multipart => KindOfUpload::Multipart,
            KindOfUpload::Binary => KindOfUpload::Binary,
        }
    }
}

impl Default for KindOfUpload {
    fn default() -> (r: Self)
        ensures
            r == KindOfUpload::Multipart,
    {
        KindOfUpload::Multipart
    }
}

/// The kind that a word names, if it names one.
pub open spec fn kind_named(word: Seq<char>) -> Option<KindOfUpload> {
    if word == "multipart"@ {
        Some(KindOfUpload::Multipart)
    } else if word == "binary"@ {
        Some(KindOfUpload::Binary)
    } else {
        None
    }
}

impl std::str::FromStr for KindOfUpload {
    type Err = String;

    /// Reads `multipart` or `binary`; any other word is refused.
    fn from_str(s: &str) -> (r: Result<Self, String>)
        ensures
            match kind_named(s@) {
                Some(kind) => r == Ok::<KindOfUpload, String>(kind),
                None => r is Err && r->Err_0@ == "Invalid kind of upload"@,
            },
    {
        if same_text(s, "multipart") {
            Ok(KindOfUpload::Multipart)
        } else if same_text(s, "binary") {
            Ok(KindOfUpload::Binary)
        } else {
            Err("Invalid kind of upload".to_owned())
        }
    }
}

/// Why a run cannot start.
#[derive(Debug, Clone, Copy, PartialEq, Eq, Structural)]
pub enum ConfigError {
    /// Neither the command line nor the environment names a host.
    MissingHost,
    /// No path was given and none can be read from standard input.
    NoPaths,
}

impl ConfigError {
    /// The sentence shown to the user.
    pub fn message(&self) -> (text: &'static str)
        ensures
            *self == ConfigError::MissingHost ==> text@
                == "No host provided. Please provide a host using the --host flag or UPLOAD_URL environment variable"@,
            *self == ConfigError::NoPaths ==> text@ == "No files or directories provided"@,
    {
        match self {
            ConfigError::MissingHost => {
                "No host provided. Please provide a host using the --host flag or UPLOAD_URL environment variable"
            },
            ConfigError::NoPaths => "No files or directories provided",
        }
    }
}

/// How the files of a run are taken through their transfers.
#[derive(Debug, Clone, Copy, PartialEq, Eq, Structural)]
pub enum ExecutionPolicy {
    /// One file after the other, each with its progress observed.
    Progress,
    /// Every file in a worker of its own, cut into chunks of this size.
    Chunked(usize),
    /// Every file in a worker of its own, as one request.
    WholeFile,
}

/// The options of one run.
#[derive(Debug)]
pub struct Cli {
    /// Where to upload to; empty when the command line named no host.
    pub host: String,
    /// How a whole file is sent.
    pub category: KindOfUpload,
    /// Token to authenticate with.
    pub token: String,
    /// What to upload.
    pub paths: Vec<String>,
    /// Whether to show progress.
    pub progress: bool,
    /// Chunk size in bytes, for a chunked run.
    pub chunk_size: Option<usize>,
}

impl Default for Cli {
    fn default() -> (cli: Self)
        ensures
            cli.host@.len() == 0,
            cli.category == KindOfUpload::Multipart,
            cli.token@.len() == 0,
            cli.paths@.len() == 0,
            !cli.progress,
            cli.chunk_size is None,
    {
        Cli {
            host: String::new(),
            category: KindOfUpload::Multipart,
            token: String::new(),
            paths: Vec::new(),
            progress: false,
            chunk_size: None,
        }
    }
}

impl Cli {
    /// The options as the command line gave them.
    pub fn from_args(
        host: String,
        category: KindOfUpload,
        token: String,
        paths: Vec<String>,
        progress: bool,
        chunk_size: Option<usize>,
    ) -> (cli: Self)
        ensures
            cli.host == host,
            cli.category == category,
            cli.token == token,
            cli.paths == paths,
            cli.progress == progress,
            cli.chunk_size == chunk_size,
    {
        Cli { host, category, token, paths, progress, chunk_size }
    }

    /// The command line named no host, so the environment is asked.
    pub fn needs_host(&self) -> (r: bool)
        ensures
            r == (self.host@.len() == 0),
    {
        self.host.as_str().is_empty()
    }

    /// The command line named no path, so standard input is asked.
    pub fn needs_paths(&self) -> (r: bool)
        ensures
            r == (self.paths@.len() == 0),
    {
        self.paths.len() == 0
    }

    /// Settles the host. A host from the command line stays; without one
    /// the environment's value is taken, whatever it holds, and its absence
    /// is an error.
    pub fn resolve_host(&mut self, env_host: Option<String>) -> (r: Result<(), ConfigError>)
        ensures
            final(self).category == old(self).category,
            final(self).token == old(self).token,
            final(self).paths == old(self).paths,
            final(self).progress == old(self).progress,
            final(self).chunk_size == old(self).chunk_size,
            old(self).host@.len() > 0 ==> r == Ok::<(), ConfigError>(()) && final(self).host == old(
                self,
            ).host,
            old(self).host@.len() == 0 ==> match env_host {
                Some(host) => r == Ok::<(), ConfigError>(()) && final(self).host == host,
                None => r == Err::<(), ConfigError>(ConfigError::MissingHost) && final(self).host
                    == old(self).host,
            },
    {
        if self.needs_host() {
            match env_host {
                Some(host) => {
                    self.host = host;
                },
                None => {
                    return Err(ConfigError::MissingHost);
                },
            }
        }
        Ok(())
    }

    /// Settles the paths. Paths from the command line stay; without any,
    /// the lines of standard input are taken, and a terminal there
    /// (`piped` is `None`) is an error.
    pub fn resolve_paths(&mut self, piped: Option<Vec<String>>) -> (r: Result<(), ConfigError>)
        ensures
            final(self).host == old(self).host,
            final(self).category == old(self).category,
            final(self).token == old(self).token,
            final(self).progress == old(self).progress,
            final(self).chunk_size == old(self).chunk_size,
            old(self).paths@.len() > 0 ==> r == Ok::<(), ConfigError>(()) && final(self).paths == old(
                self,
            ).paths,
            old(self).paths@.len() == 0 ==> match piped {
                Some(lines) => r == Ok::<(), ConfigError>(()) && final(self).paths == lines,
                None => r == Err::<(), ConfigError>(ConfigError::NoPaths) && final(self).paths
                    == old(self).paths,
            },
    {
        if self.needs_paths() {
            match piped {
                Some(lines) => {
                    self.paths = lines;
                },
                None => {
                    return Err(ConfigError::NoPaths);
                },
            }
        }
        Ok(())
    }

    /// Checks the options before a run: first the host, then the paths.
    /// A missing host is reported before the paths are looked at; a host
    /// taken from the environment stays even when the paths then fail.
    pub fn validate(&mut self, env_host: Option<String>, piped: Option<Vec<String>>) -> (r: Result<
        (),
        ConfigError,
    >)
        ensures
            final(self).category == old(self).category,
            final(self).token == old(self).token,
            final(self).progress == old(self).progress,
            final(self).chunk_size == old(self).chunk_size,
            r == validate_outcome(old(self).host@, old(self).paths@.len(), env_host, piped),
            final(self).host == if old(self).host@.len() == 0 && env_host is Some {
                env_host->Some_0
            } else {
                old(self).host
            },
            final(self).paths == if r is Ok && old(self).paths@.len() == 0 {
                piped->Some_0
            } else {
                old(self).paths
            },
    {
        match self.resolve_host(env_host) {
            Err(e) => {
                return Err(e);
            },
            Ok(()) => {},
        }
        self.resolve_paths(piped)
    }

    /// Which way the files of this run are transferred: with progress when
    /// that was asked for; else in chunks when a chunk size was given; else
    /// each file whole.
    pub fn policy(&self) -> (p: ExecutionPolicy)
        ensures
            p == execution_policy(self.progress, self.chunk_size),
    {
        if self.progress {
            ExecutionPolicy::Progress
        } else {
            match self.chunk_size {
                Some(size) => ExecutionPolicy::Chunked(size),
                None => ExecutionPolicy::WholeFile,
            }
        }
    }
}

/// What `validate` answers: options with a host (given or from the
/// environment) and with paths (given or piped) pass.
pub open spec fn validate_outcome(
    host: Seq<char>,
    path_count: nat,
    env_host: Option<String>,
    piped: Option<Vec<String>>,
) -> Result<(), ConfigError> {
    if host.len() == 0 && env_host is None {
        Err(ConfigError::MissingHost)
    } else if path_count == 0 && piped is None {
        Err(ConfigError::NoPaths)
    } else {
        Ok(())
    }
}

/// The policy that the two switches select.
pub open spec fn execution_policy(progress: bool, chunk_size: Option<usize>) -> ExecutionPolicy {
    if progress {
        ExecutionPolicy::Progress
    } else {
        match chunk_size {
            Some(size) => ExecutionPolicy::Chunked(size),
            None => ExecutionPolicy::WholeFile,
        }
    }
}

/// The process ends with status 1 when the options were refused and with 0
/// in every other case, whatever became of the transfers.
pub fn exit_status(validation: &Result<(), ConfigError>) -> (code: i32)
    ensures
        code == if validation is Err {
            1i32
        } else {
            0i32
        },
{
    match validation {
        Err(_) => 1,
        Ok(()) => 0,
    }
}

} // verus!
