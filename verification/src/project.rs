//! A project: where it lies, its configuration, and the files of its local state.

use crate::paths::{
    display, ends_with, join, parent, path_ends_with, path_from, path_join, path_of, path_parent,
    path_text, same,
};
use crate::text::concat2;
use std::path::PathBuf;
use vstd::prelude::*;

verus! {

/// The name of the file that holds the configuration of a project.
pub const CONFIG_FILENAME: &'static str = "xeval.toml";

/// The pattern by which the specifications of a project are found unless another is set.
pub const DEFAULT_EVALS_GLOB: &'static str = "./evals/**/*.yaml";

/// The name of the directory that holds the local state of a project.
pub const PROJECT_STATE_DIRNAME: &'static str = ".xeval";

/// The name of the directory, in the local state, of what belongs to the remote service.
pub const OPENAI_DIRNAME: &'static str = "openai";

/// The name of the file that mirrors the evaluations of the remote service.
pub const OPENAI_EVALS_FILENAME: &'static str = "evals.json";

/// How many directories a search for a configuration climbs at most.
pub const SEARCH_DEPTH: usize = 64;

/// What went wrong with the configuration of a project.
#[derive(Debug)]
pub enum ConfigError {
    NotFound(PathBuf),
    ReadFailed(String),
    AlreadyExists(PathBuf),
}

impl ConfigError {
    pub open spec fn text(self) -> Seq<char> {
        match self {
            ConfigError::NotFound(p) => "Failed to find config file at "@ + path_text(p),
            ConfigError::ReadFailed(_) => "Failed to read config file"@,
            ConfigError::AlreadyExists(_) => "Config file already exists, pass --force to overwrite"@,
        }
    }

    /// What went wrong, in words.
    pub fn message(&self) -> (r: String)
        ensures
            r@ == self.text(),
    {
        match self {
            ConfigError::NotFound(p) => concat2("Failed to find config file at ", display(p).as_str()),
            ConfigError::ReadFailed(_) => "Failed to read config file".to_owned(),
            ConfigError::AlreadyExists(_) => "Config file already exists, pass --force to overwrite".to_owned(),
        }
    }
}

/// The configuration of a project.
#[derive(Debug)]
pub struct Config {
    /// The pattern by which the specifications are found.
    pub evals: String,
}

impl Default for Config {
    fn default() -> (r: Self)
        ensures
            r.evals@ == DEFAULT_EVALS_GLOB@,
    {
        Config { evals: Config::default_evals_glob() }
    }
}

/// The file of the configuration for a path: the path itself where it names such a file,
/// else that file in the directory it names.
pub open spec fn config_file(path: PathBuf) -> PathBuf {
    if path_ends_with(path, CONFIG_FILENAME@) {
        path
    } else {
        path_join(path, CONFIG_FILENAME@)
    }
}

/// The files in which a search that starts at `dir` looks, in order: the configuration
/// file of `dir`, then that of each directory above it, as far as `fuel` reaches.
pub open spec fn search_path(dir: PathBuf, fuel: nat) -> Seq<PathBuf>
    decreases fuel,
{
    if fuel == 0 {
        Seq::empty()
    } else {
        match path_parent(dir) {
            Some(up) => seq![path_join(dir, CONFIG_FILENAME@)] + search_path(up, (fuel - 1) as nat),
            None => seq![path_join(dir, CONFIG_FILENAME@)],
        }
    }
}

/// The files in which the configuration is looked for. A path that is given is taken at
/// its word: it is the file, or the directory that holds it. With none given, the search
/// starts at the current directory and climbs.
pub open spec fn candidates(path: Option<PathBuf>, is_dir: bool) -> Seq<PathBuf> {
    match path {
        Some(p) => if is_dir {
            seq![config_file(p)]
        } else {
            seq![p]
        },
        None => search_path(path_of("."@), SEARCH_DEPTH as nat),
    }
}

impl Config {
    /// The file of the configuration for a path.
    pub fn resolve_path(path: &PathBuf) -> (r: PathBuf)
        ensures
            r == config_file(*path),
    {
        if ends_with(path, CONFIG_FILENAME) {
            same(path)
        } else {
            join(path, CONFIG_FILENAME)
        }
    }

    /// The configuration that a new project starts with. `exists` says whether the file
    /// of the configuration for `path` is there already; one that is there is only
    /// replaced where `force` says so.
    pub fn init(path: &PathBuf, force: bool, exists: bool) -> (r: Result<Config, ConfigError>)
        ensures
            match r {
                Ok(c) => !(exists && !force) && c.evals@ == DEFAULT_EVALS_GLOB@,
                Err(e) => {
                    &&& exists && !force
                    &&& e matches ConfigError::AlreadyExists(p)
                    &&& p == config_file(*path)
                },
            },
    {
        if exists && !force {
            return Err(ConfigError::AlreadyExists(Config::resolve_path(path)));
        }
        Ok(Config { evals: Config::default_evals_glob() })
    }

    /// The file that a new configuration for `path` is written to. `exists` says whether
    /// that file is there already; one that is there is only replaced where `force`
    /// says so.
    pub fn write_new(path: &PathBuf, force: bool, exists: bool) -> (r: Result<PathBuf, ConfigError>)
        ensures
            match r {
                Ok(dest) => !(exists && !force) && dest == config_file(*path),
                Err(e) => {
                    &&& exists && !force
                    &&& e matches ConfigError::AlreadyExists(p)
                    &&& p == config_file(*path)
                },
            },
    {
        let dest = Config::resolve_path(path);
        if exists && !force {
            return Err(ConfigError::AlreadyExists(dest));
        }
        Ok(dest)
    }

    /// The files in which the configuration is to be looked for, in order: the first
    /// that is a file is the one to read. `is_dir` says whether the path given is a
    /// directory.
    pub fn find(path: &Option<PathBuf>, is_dir: bool) -> (r: Vec<PathBuf>)
        ensures
            r@ == candidates(*path, is_dir),
    {
        let mut out: Vec<PathBuf> = Vec::new();
        match path {
            Some(p) => {
                if is_dir {
                    out.push(Config::resolve_path(p));
                    assert(out@ =~= seq![config_file(*p)]);
                } else {
                    out.push(same(p));
                    assert(out@ =~= seq![*p]);
                }
            },
            None => {
                let mut dir = path_from(".");
                let mut fuel: usize = SEARCH_DEPTH;
                let ghost start = dir;
                proof {
                    assert(out@ + search_path(dir, fuel as nat) =~= search_path(dir, fuel as nat));
                }
                while fuel > 0
                    invariant
                        search_path(start, SEARCH_DEPTH as nat) == out@ + search_path(
                            dir,
                            fuel as nat,
                        ),
                    decreases fuel,
                {
                    let ghost before = out@;
                    out.push(join(&dir, CONFIG_FILENAME));
                    match parent(&dir) {
                        Some(up) => {
                            proof {
                                assert(before + (seq![path_join(dir, CONFIG_FILENAME@)]
                                    + search_path(up, (fuel - 1) as nat)) =~= out@ + search_path(
                                    up,
                                    (fuel - 1) as nat,
                                ));
                            }
                            dir = up;
                            fuel = fuel - 1;
                        },
                        None => {
                            proof {
                                assert(before + seq![path_join(dir, CONFIG_FILENAME@)] =~= out@);
                                assert(out@ + search_path(dir, 0) =~= out@);
                            }
                            fuel = 0;
                        },
                    }
                }
                assert(out@ + search_path(dir, 0) =~= out@);
            },
        }
        out
    }

    /// What is reported where none of the files looked in is there.
    pub fn not_found() -> (r: ConfigError)
        ensures
            r matches ConfigError::NotFound(p) && p == path_of("."@),
    {
        ConfigError::NotFound(path_from("."))
    }

    pub fn default_evals_glob() -> (r: String)
        ensures
            r@ == DEFAULT_EVALS_GLOB@,
    {
        DEFAULT_EVALS_GLOB.to_owned()
    }
}

/// A project: the directory it lies in, its configuration, and the file that the
/// configuration was read from where that is known.
#[derive(Debug)]
pub struct Project {
    pub path: PathBuf,
    pub config: Config,
    pub config_path: Option<PathBuf>,
}

impl Project {
    pub fn from_config(path: PathBuf, config: Config, config_path: Option<PathBuf>) -> (r: Self)
        ensures
            r.path == path,
            r.config == config,
            r.config_path == config_path,
    {
        Project { path, config, config_path }
    }

    /// The file of the configuration of the project: the one it was read from, or the
    /// one in its directory.
    pub fn get_config_path(&self) -> (r: PathBuf)
        ensures
            r == match self.config_path {
                Some(p) => p,
                None => path_join(self.path, CONFIG_FILENAME@),
            },
    {
        match &self.config_path {
            Some(p) => same(p),
            None => join(&self.path, CONFIG_FILENAME),
        }
    }
}

/// A file of the local state of a project.
#[derive(Debug)]
pub struct ProjectStateFile {
    pub path: PathBuf,
}

impl ProjectStateFile {
    /// The file of the local state that `relative` names: it lies under the state
    /// directory of the project.
    pub fn ensure(project: &Project, relative: &str) -> (r: Self)
        ensures
            r.path == path_join(path_join(project.path, PROJECT_STATE_DIRNAME@), relative@),
    {
        let base = join(&project.path, PROJECT_STATE_DIRNAME);
        ProjectStateFile { path: join(&base, relative) }
    }
}

/// The files of the local state that belong to the remote service.
#[derive(Debug)]
pub struct OpenAiLocalProjectState {
    /// The mirror of the evaluations.
    pub evals: ProjectStateFile,
}

impl OpenAiLocalProjectState {
    /// The files of the local state of a project.
    pub fn new(project: &Project) -> (r: Self)
        ensures
            r.evals.path == path_join(
                path_join(path_join(project.path, PROJECT_STATE_DIRNAME@), OPENAI_DIRNAME@),
                OPENAI_EVALS_FILENAME@,
            ),
    {
        let base = join(&project.path, PROJECT_STATE_DIRNAME);
        let dir = join(&base, OPENAI_DIRNAME);
        OpenAiLocalProjectState { evals: ProjectStateFile { path: join(&dir, OPENAI_EVALS_FILENAME) } }
    }

    pub fn evals_path(&self) -> (r: &PathBuf)
        ensures
            *r == self.evals.path,
    {
        &self.evals.path
    }
}

} // verus!
