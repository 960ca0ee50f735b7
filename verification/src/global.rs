//! The state that is shared by all projects of a user: the directory it lies in, and the
//! credentials kept there.

use crate::client::{OpenAiAuth, OpenAiToken};
use crate::paths::{display, join, path_join, path_text};
use crate::text::{concat2, concat3};
use std::path::PathBuf;
use toml_edit::DocumentMut;
use vstd::prelude::*;

verus! {

/// The name of the directory of the shared state.
pub const GLOBAL_DIRNAME: &'static str = "xeval";

/// The name of the file that holds the credentials.
pub const GLOBAL_AUTH_FILENAME: &'static str = "auth.toml";

/// The name of the table that holds the credentials of the remote service.
pub const GLOBAL_AUTH_OPENAI_NAME: &'static str = "openai";

/// The key under which the token of the remote service stands.
pub const GLOBAL_AUTH_OPENAI_API_TOKEN_NAME: &'static str = "api_token";

#[verifier::external_type_specification]
#[verifier::external_body]
pub struct ExDocumentMut(DocumentMut);

/// The strings that a document holds in its tables: each by the name of its table and
/// its key there.
pub uninterp spec fn doc_strings(doc: DocumentMut) -> Map<(Seq<char>, Seq<char>), Seq<char>>;

/// What a document that holds no string holds.
pub open spec fn no_strings() -> Map<(Seq<char>, Seq<char>), Seq<char>> {
    Map::empty()
}

/// The document that a text is read to, where it can be read.
pub uninterp spec fn doc_parsed(text: Seq<char>) -> Option<DocumentMut>;

/// The text that a document is written as.
pub uninterp spec fn doc_text(doc: DocumentMut) -> Seq<char>;

/// The view of a string that may be missing.
pub open spec fn opt_text(s: Option<String>) -> Option<Seq<char>> {
    match s {
        Some(x) => Some(x@),
        None => None,
    }
}

/// A document that holds nothing.
///
/// Trusted: `DocumentMut::new` makes an empty document, which holds no table and so no
/// string.
#[verifier::external_body]
pub(crate) fn new_document() -> (r: DocumentMut)
    ensures
        doc_strings(r) == no_strings(),
{
    DocumentMut::new()
}

/// Reads a document.
///
/// Trusted: `DocumentMut::from_str` parses the text. The contract only gives the
/// outcome its name.
#[verifier::external_body]
pub(crate) fn parse_document(text: &str) -> (r: Option<DocumentMut>)
    ensures
        r == doc_parsed(text@),
{
    text.parse::<DocumentMut>().ok()
}

/// Writes a document.
///
/// Trusted: the `Display` form of a `DocumentMut` is its text. The contract only gives
/// the outcome its name.
#[verifier::external_body]
pub(crate) fn write_document(doc: &DocumentMut) -> (r: String)
    ensures
        r@ == doc_text(*doc),
{
    doc.to_string()
}

/// The string under `key` in the table `table`.
///
/// Trusted: `Table::get` finds the item of the document named `table`, `Item::as_table`
/// takes it as a table, `Table::get` finds the item under `key`, and `Item::as_str` takes
/// it as a string. The contract says that this is the string that the document holds
/// there, and nothing where it holds none.
#[verifier::external_body]
pub(crate) fn get_string(doc: &DocumentMut, table: &str, key: &str) -> (r: Option<String>)
    ensures
        opt_text(r) == doc_strings(*doc).get((table@, key@)),
{
    doc.get(table).and_then(|i| i.as_table()).and_then(|t| t.get(key)).and_then(|i| i.as_str()).map(
        |s| s.to_string(),
    )
}

/// Puts a string under `key` in the table `table`, which is made where the document has
/// nothing of that name.
///
/// Trusted: `Table::entry` with `Entry::or_insert` finds the item named `table` or puts
/// an empty table there, `Item::as_table_mut` takes it as a table, and assigning through
/// the index of the table puts `toml_edit::value(value)` under `key`. Where the item is
/// no table nothing is changed and `false` comes back; else the string stands under the
/// key afterwards, and the other strings of the document are as before.
#[verifier::external_body]
pub(crate) fn set_string(doc: &mut DocumentMut, table: &str, key: &str, value: &str) -> (r: bool)
    ensures
        r ==> doc_strings(*final(doc)) == doc_strings(*old(doc)).insert((table@, key@), value@),
        !r ==> *final(doc) == *old(doc),
{
    match doc.entry(table).or_insert(toml_edit::Item::Table(toml_edit::Table::new())).as_table_mut() {
        Some(t) => {
            t[key] = toml_edit::value(value);
            true
        },
        None => false,
    }
}

/// What went wrong with the directory of the shared state.
#[derive(Debug)]
pub enum GlobalDirError {
    ResolveHome,
    Create(String),
}

impl GlobalDirError {
    pub open spec fn text(self) -> Seq<char> {
        match self {
            GlobalDirError::ResolveHome => "Failed to resolve home directory"@,
            GlobalDirError::Create(e) => "Failed to create global directory: "@ + e@,
        }
    }

    /// What went wrong, in words.
    pub fn message(&self) -> (r: String)
        ensures
            r@ == self.text(),
    {
        match self {
            GlobalDirError::ResolveHome => "Failed to resolve home directory".to_owned(),
            GlobalDirError::Create(e) => concat2("Failed to create global directory: ", e.as_str()),
        }
    }
}

/// The directory of the shared state.
#[derive(Debug)]
pub struct GlobalDir {
    pub path: PathBuf,
}

/// The directory of the shared state of the user whose home is `home`:
/// `.local/state/xeval` under it.
pub open spec fn state_dir(home: PathBuf) -> PathBuf {
    path_join(path_join(path_join(home, ".local"@), "state"@), GLOBAL_DIRNAME@)
}

impl GlobalDir {
    /// The directory of the shared state, given the home of the user. Without a home
    /// there is none.
    pub fn resolve(home: Option<PathBuf>) -> (r: Result<Self, GlobalDirError>)
        ensures
            match home {
                Some(h) => r matches Ok(d) && d.path == state_dir(h),
                None => r matches Err(e) && e is ResolveHome,
            },
    {
        match home {
            Some(h) => {
                let local = join(&h, ".local");
                let state = join(&local, "state");
                Ok(GlobalDir { path: join(&state, GLOBAL_DIRNAME) })
            },
            None => Err(GlobalDirError::ResolveHome),
        }
    }

    /// The path of a file of the shared state.
    pub fn resolve_path(&self, path: &str) -> (r: PathBuf)
        ensures
            r == path_join(self.path, path@),
    {
        join(&self.path, path)
    }
}

/// What went wrong with the credentials.
#[derive(Debug)]
pub enum GlobalAuthError {
    Parse(PathBuf),
    Update(String),
    Write(PathBuf),
}

impl GlobalAuthError {
    pub open spec fn text(self) -> Seq<char> {
        match self {
            GlobalAuthError::Parse(p) => "Failed to parse "@ + path_text(p),
            GlobalAuthError::Update(name) => "Failed to update "@ + name@ + " key"@,
            GlobalAuthError::Write(p) => "Failed to write "@ + path_text(p),
        }
    }

    /// What went wrong, in words.
    pub fn message(&self) -> (r: String)
        ensures
            r@ == self.text(),
    {
        match self {
            GlobalAuthError::Parse(p) => concat2("Failed to parse ", display(p).as_str()),
            GlobalAuthError::Update(name) => concat3("Failed to update ", name.as_str(), " key"),
            GlobalAuthError::Write(p) => concat2("Failed to write ", display(p).as_str()),
        }
    }
}

/// The credentials that are kept in the shared state.
#[derive(Debug)]
pub struct GlobalAuth {
    pub doc: DocumentMut,
}

impl GlobalAuth {
    /// The file that holds the credentials.
    pub fn resolve_path(dir: &GlobalDir) -> (r: PathBuf)
        ensures
            r == path_join(dir.path, GLOBAL_AUTH_FILENAME@),
    {
        dir.resolve_path(GLOBAL_AUTH_FILENAME)
    }

    /// The credentials that the file holds, given its text, or nothing where it could
    /// not be read: a file that is not there counts as one that holds nothing; a text
    /// that cannot be read as a document is an error that names the file.
    pub fn resolve(dir: &GlobalDir, text: Option<&str>) -> (r: Result<Self, GlobalAuthError>)
        ensures
            match text {
                None => r matches Ok(a) && doc_strings(a.doc) == no_strings(),
                Some(s) => match doc_parsed(s@) {
                    Some(d) => r matches Ok(a) && a.doc == d,
                    None => r matches Err(GlobalAuthError::Parse(p)) && p == path_join(
                        dir.path,
                        GLOBAL_AUTH_FILENAME@,
                    ),
                },
            },
    {
        match text {
            None => Ok(GlobalAuth { doc: new_document() }),
            Some(s) => match parse_document(s) {
                Some(doc) => Ok(GlobalAuth { doc }),
                None => Err(GlobalAuthError::Parse(GlobalAuth::resolve_path(dir))),
            },
        }
    }

    /// The string that stands under `key` in the table `name`.
    pub fn get(&self, name: &str, key: &str) -> (r: Option<String>)
        ensures
            opt_text(r) == doc_strings(self.doc).get((name@, key@)),
    {
        get_string(&self.doc, name, key)
    }

    /// Puts `value` under `key` in the table `name`. Where what stands under `name` is
    /// no table, nothing is changed and the error names it.
    pub fn update(&mut self, name: &str, key: &str, value: &str) -> (r: Result<(), GlobalAuthError>)
        ensures
            match r {
                Ok(_) => doc_strings(final(self).doc) == doc_strings(old(self).doc).insert(
                    (name@, key@),
                    value@,
                ),
                Err(e) => {
                    &&& final(self).doc == old(self).doc
                    &&& e matches GlobalAuthError::Update(n)
                    &&& n@ == name@
                },
            },
    {
        if set_string(&mut self.doc, name, key, value) {
            Ok(())
        } else {
            Err(GlobalAuthError::Update(name.to_owned()))
        }
    }

    /// The text that is to be written to the file of the credentials.
    pub fn persist(&self) -> (r: String)
        ensures
            r@ == doc_text(self.doc),
    {
        write_document(&self.doc)
    }
}

/// What went wrong with the shared state.
#[derive(Debug)]
pub enum GlobalError {
    Dir(GlobalDirError),
    Auth(GlobalAuthError),
}

impl GlobalError {
    pub open spec fn text(self) -> Seq<char> {
        match self {
            GlobalError::Dir(e) => e.text(),
            GlobalError::Auth(e) => e.text(),
        }
    }

    /// What went wrong, in words: what the error inside says.
    pub fn message(&self) -> (r: String)
        ensures
            r@ == self.text(),
    {
        match self {
            GlobalError::Dir(e) => e.message(),
            GlobalError::Auth(e) => e.message(),
        }
    }
}

/// The shared state of a user.
#[derive(Debug)]
pub struct Global {
    pub dir: GlobalDir,
    pub auth: GlobalAuth,
}

impl Global {
    /// The shared state that lies in `dir`, given the text of the file of the
    /// credentials, or nothing where that file could not be read.
    pub fn resolve(dir: GlobalDir, text: Option<&str>) -> (r: Result<Self, GlobalError>)
        ensures
            match text {
                None => r matches Ok(g) && g.dir == dir && doc_strings(g.auth.doc) == no_strings(),
                Some(s) => match doc_parsed(s@) {
                    Some(d) => r matches Ok(g) && g.dir == dir && g.auth.doc == d,
                    None => r matches Err(GlobalError::Auth(GlobalAuthError::Parse(p))) && p
                        == path_join(dir.path, GLOBAL_AUTH_FILENAME@),
                },
            },
    {
        match GlobalAuth::resolve(&dir, text) {
            Ok(auth) => Ok(Global { dir, auth }),
            Err(e) => Err(GlobalError::Auth(e)),
        }
    }

    /// What is to be written so that the credentials are kept: the file, and its text.
    pub fn persist_auth(&self) -> (r: (PathBuf, String))
        ensures
            r.0 == path_join(self.dir.path, GLOBAL_AUTH_FILENAME@),
            r.1@ == doc_text(self.auth.doc),
    {
        (GlobalAuth::resolve_path(&self.dir), self.auth.persist())
    }
}

/// What went wrong with the credentials of the remote service.
#[derive(Debug)]
pub enum OpenAiAuthError {
    Global(GlobalError),
    Update(String),
}

impl OpenAiAuthError {
    pub open spec fn text(self) -> Seq<char> {
        match self {
            OpenAiAuthError::Global(e) => e.text(),
            OpenAiAuthError::Update(e) => "Failed to update OpenAI auth token: "@ + e@,
        }
    }

    /// What went wrong, in words.
    pub fn message(&self) -> (r: String)
        ensures
            r@ == self.text(),
    {
        match self {
            OpenAiAuthError::Global(e) => e.message(),
            OpenAiAuthError::Update(e) => concat2("Failed to update OpenAI auth token: ", e.as_str()),
        }
    }
}

/// The token of the remote service that a document of credentials holds, if it holds one.
pub open spec fn stored_token(doc: DocumentMut) -> Option<Seq<char>> {
    doc_strings(doc).get((GLOBAL_AUTH_OPENAI_NAME@, GLOBAL_AUTH_OPENAI_API_TOKEN_NAME@))
}

/// A credential that was put into the shared state is the one found there afterwards.
pub proof fn law_persisted_is_detected(before: DocumentMut, after: DocumentMut, token: Seq<char>)
    requires
        doc_strings(after) == doc_strings(before).insert(
            (GLOBAL_AUTH_OPENAI_NAME@, GLOBAL_AUTH_OPENAI_API_TOKEN_NAME@),
            token,
        ),
    ensures
        stored_token(after) == Some(token),
{
}

impl OpenAiAuth {
    /// The credential that the shared state holds, if it holds one.
    pub fn detect(global: &Global) -> (r: Option<Self>)
        ensures
            match r {
                Some(a) => stored_token(global.auth.doc) == Some(a.token.0@),
                None => stored_token(global.auth.doc) is None,
            },
    {
        match global.auth.get(GLOBAL_AUTH_OPENAI_NAME, GLOBAL_AUTH_OPENAI_API_TOKEN_NAME) {
            Some(token) => Some(OpenAiAuth::new(OpenAiToken::new(token))),
            None => None,
        }
    }

    /// Puts the credential into the shared state, from where it is then written out.
    pub fn persist(&self, global: &mut Global) -> (r: Result<(), OpenAiAuthError>)
        ensures
            match r {
                Ok(_) => doc_strings(final(global).auth.doc) == doc_strings(
                    old(global).auth.doc,
                ).insert((GLOBAL_AUTH_OPENAI_NAME@, GLOBAL_AUTH_OPENAI_API_TOKEN_NAME@), self.token.0@),
                Err(e) => {
                    &&& final(global).auth.doc == old(global).auth.doc
                    &&& e matches OpenAiAuthError::Update(n)
                    &&& n@ == GLOBAL_AUTH_OPENAI_NAME@
                },
            },
            final(global).dir == old(global).dir,
    {
        match global.auth.update(
            GLOBAL_AUTH_OPENAI_NAME,
            GLOBAL_AUTH_OPENAI_API_TOKEN_NAME,
            self.token(),
        ) {
            Ok(_) => Ok(()),
            Err(_) => Err(OpenAiAuthError::Update(GLOBAL_AUTH_OPENAI_NAME.to_owned())),
        }
    }
}

/// Which credentials a command expects to find.
#[derive(Debug, Clone, Copy, PartialEq, Eq, Structural)]
pub enum AuthState {
    New,
    Existing,
}

} // verus!
