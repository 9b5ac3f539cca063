//! Where an application keeps its private data: a directory under a base that
//! depends on the host's operating system, then the author, the application,
//! and whatever was pushed after them.
//!
//! Nothing here touches the file system. A path is a sequence of segments below
//! the base directory that the host reports; the caller joins them to that
//! directory and creates what is missing.

use vstd::prelude::*;

verus! {

/// Why no private directory could be had.
#[derive(Debug, PartialEq, Eq)]
pub enum ErrorKind {
    NoHomeDir,
    BadHomeDirEncoding,
    PrivatePathNotCreated,
}

impl Clone for ErrorKind {
    fn clone(&self) -> (r: ErrorKind)
        ensures
            r == *self,
    {
        match self {
            ErrorKind::NoHomeDir => ErrorKind::NoHomeDir,
            ErrorKind::BadHomeDirEncoding => ErrorKind::BadHomeDirEncoding,
            ErrorKind::PrivatePathNotCreated => ErrorKind::PrivatePathNotCreated,
        }
    }
}

impl ErrorKind {
    /// The text that `description` returns.
    pub open spec fn spec_description(&self) -> Seq<char> {
        match self {
            ErrorKind::NoHomeDir => "no home directory could be found"@,
            ErrorKind::BadHomeDirEncoding =>
                "the path to the home directory has an unknown encoding"@,
            ErrorKind::PrivatePathNotCreated =>
                "this application's local storage path could not be created"@,
        }
    }

    /// What went wrong, in words.
    pub fn description(&self) -> (r: String)
        ensures
            r@ == self.spec_description(),
    {
        match self {
            ErrorKind::NoHomeDir => "no home directory could be found".to_owned(),
            ErrorKind::BadHomeDirEncoding =>
                "the path to the home directory has an unknown encoding".to_owned(),
            ErrorKind::PrivatePathNotCreated =>
                "this application's local storage path could not be created".to_owned(),
        }
    }
}

/// The families of operating systems that place private data differently.
#[derive(Debug, PartialEq, Eq, Clone, Copy)]
pub enum Platform {
    MacOs,
    Windows,
    Other,
}

/// What the host answered when asked for the user's base directory: the home
/// directory, or on Windows the roaming application data folder.
#[derive(Debug, PartialEq, Eq, Clone, Copy)]
pub enum BaseLookup {
    /// The host named a directory.
    Found,
    /// The host named none.
    Missing,
    /// The host named one whose path is no valid text.
    Undecodable,
}

/// The segments that lead from the host's base directory to the place where
/// applications keep their data on `platform`.
pub open spec fn platform_segments(platform: Platform) -> Seq<Seq<char>> {
    match platform {
        Platform::MacOs => seq!["Library"@, "Application Support"@],
        Platform::Windows => seq![],
        Platform::Other => seq![".local"@],
    }
}

/// The views of the strings of `path`, in order.
pub open spec fn segments(path: Seq<String>) -> Seq<Seq<char>> {
    path.map_values(|s: String| s@)
}

/// What `home` returns.
pub open spec fn spec_home(platform: Platform, lookup: BaseLookup) -> Result<
    Seq<Seq<char>>,
    ErrorKind,
> {
    match lookup {
        BaseLookup::Found => Ok(platform_segments(platform)),
        BaseLookup::Missing => Err(ErrorKind::NoHomeDir),
        BaseLookup::Undecodable => Err(ErrorKind::BadHomeDirEncoding),
    }
}

/// The directory under which applications keep their data, as the segments
/// below the host's base directory, or the reason why there is none.
pub fn home(platform: Platform, lookup: BaseLookup) -> (r: Result<Vec<String>, ErrorKind>)
    ensures
        r is Ok <==> lookup == BaseLookup::Found,
        r matches Ok(path) ==> spec_home(platform, lookup) == Ok::<Seq<Seq<char>>, ErrorKind>(
            segments(path@),
        ),
        r matches Err(e) ==> spec_home(platform, lookup) == Err::<Seq<Seq<char>>, ErrorKind>(e),
{
    match lookup {
        BaseLookup::Missing => Err(ErrorKind::NoHomeDir),
        BaseLookup::Undecodable => Err(ErrorKind::BadHomeDirEncoding),
        BaseLookup::Found => {
            let mut path: Vec<String> = Vec::new();
            match platform {
                Platform::MacOs => {
                    path.push("Library".to_owned());
                    path.push("Application Support".to_owned());
                },
                Platform::Windows => {},
                Platform::Other => {
                    path.push(".local".to_owned());
                },
            }
            assert(segments(path@) =~= platform_segments(platform));
            Ok(path)
        },
    }
}

/// A private directory in the making: whose application it is for, and what was
/// pushed below that.
#[derive(Debug, PartialEq, Eq)]
pub struct PrivatePathBuf {
    author: String,
    app_name: String,
    subpath: Vec<String>,
}

/// What a `PrivatePathBuf` is: the author, the application, and the segments
/// pushed so far, oldest first.
pub struct PrivatePathView {
    pub author: Seq<char>,
    pub app_name: Seq<char>,
    pub subpath: Seq<Seq<char>>,
}

impl View for PrivatePathBuf {
    type V = PrivatePathView;

    closed spec fn view(&self) -> PrivatePathView {
        PrivatePathView {
            author: self.author@,
            app_name: self.app_name@,
            subpath: segments(self.subpath@),
        }
    }
}

/// The segments that `path` stands for below the place where applications keep
/// their data: the author, the application, then what was pushed.
pub open spec fn private_segments(path: PrivatePathView) -> Seq<Seq<char>> {
    seq![path.author, path.app_name] + path.subpath
}

/// What `locate` returns for `path`.
pub open spec fn located(path: PrivatePathView, platform: Platform, lookup: BaseLookup) -> Result<
    Seq<Seq<char>>,
    ErrorKind,
> {
    match spec_home(platform, lookup) {
        Ok(base) => Ok(base + private_segments(path)),
        Err(e) => Err(e),
    }
}

/// Begins the private directory of the application `app_name` by `author`. All
/// applications of one author lie under one directory.
pub fn with_author_and_app(author: &str, app_name: &str) -> (r: PrivatePathBuf)
    ensures
        r@ == (PrivatePathView { author: author@, app_name: app_name@, subpath: seq![] }),
{
    let r = PrivatePathBuf {
        author: author.to_owned(),
        app_name: app_name.to_owned(),
        subpath: Vec::new(),
    };
    assert(segments(r.subpath@) =~= seq![]);
    r
}

impl PrivatePathBuf {
    /// Extends the path by `path`, below what it held.
    pub fn push(&mut self, path: &str) -> (r: &mut Self)
        ensures
            r@ == (PrivatePathView { subpath: old(self)@.subpath.push(path@), ..old(self)@ }),
            *final(self) == *final(r),
    {
        self.subpath.push(path.to_owned());
        assert(segments(self.subpath@) =~= segments(old(self).subpath@).push(path@));
        self
    }

    /// The author.
    pub fn author(&self) -> (r: &str)
        ensures
            r@ == self@.author,
    {
        self.author.as_str()
    }

    /// The application.
    pub fn app_name(&self) -> (r: &str)
        ensures
            r@ == self@.app_name,
    {
        self.app_name.as_str()
    }

    /// The segments pushed so far, oldest first.
    pub fn subpath(&self) -> (r: &Vec<String>)
        ensures
            segments(r@) == self@.subpath,
    {
        &self.subpath
    }

    /// The private directory, as the segments below the host's base directory,
    /// or the reason why the host has no place for it. The path is left as it
    /// was, so that asking again gives the same answer.
    ///
    /// The caller joins the segments to the base directory and creates what is
    /// missing; see `created`.
    pub fn locate(&self, platform: Platform, lookup: BaseLookup) -> (r: Result<
        Vec<String>,
        ErrorKind,
    >)
        ensures
            r is Ok <==> lookup == BaseLookup::Found,
            r matches Ok(path) ==> located(self@, platform, lookup) == Ok::<
                Seq<Seq<char>>,
                ErrorKind,
            >(segments(path@)),
            r matches Err(e) ==> located(self@, platform, lookup) == Err::<
                Seq<Seq<char>>,
                ErrorKind,
            >(e),
    {
        let mut path = match home(platform, lookup) {
            Ok(base) => base,
            Err(e) => {
                return Err(e);
            },
        };
        let ghost base = segments(path@);
        path.push(self.author.clone());
        path.push(self.app_name.clone());
        assert(segments(path@) =~= base + seq![self@.author, self@.app_name]);
        let mut i: usize = 0;
        while i < self.subpath.len()
            invariant
                i <= self.subpath@.len(),
                segments(path@) == base + seq![self@.author, self@.app_name] + segments(
                    self.subpath@,
                ).take(i as int),
            decreases self.subpath@.len() - i,
        {
            let ghost before = segments(path@);
            path.push(self.subpath[i].clone());
            assert(segments(path@) =~= before.push(self.subpath@[i as int]@));
            assert(segments(self.subpath@).take(i + 1) =~= segments(self.subpath@).take(
                i as int,
            ).push(self.subpath@[i as int]@));
            i = i + 1;
        }
        assert(segments(self.subpath@).take(i as int) =~= segments(self.subpath@));
        assert(segments(path@) =~= base + private_segments(self@));
        Ok(path)
    }
}

/// What becomes of a located directory once the caller has tried to create it:
/// the directory where that `succeeded`, and `PrivatePathNotCreated` where not.
pub fn created(path: Vec<String>, succeeded: bool) -> (r: Result<Vec<String>, ErrorKind>)
    ensures
        succeeded ==> r == Ok::<Vec<String>, ErrorKind>(path),
        !succeeded ==> r == Err::<Vec<String>, ErrorKind>(ErrorKind::PrivatePathNotCreated),
{
    if succeeded {
        Ok(path)
    } else {
        Err(ErrorKind::PrivatePathNotCreated)
    }
}

/// To locate a directory is a function of the path and of what the host
/// answers: two paths with one author, one application and the same segments
/// are located alike, whatever else was done between the two.
pub proof fn lemma_locate_repeatable(
    first: PrivatePathView,
    second: PrivatePathView,
    platform: Platform,
    lookup: BaseLookup,
)
    requires
        first.author == second.author,
        first.app_name == second.app_name,
        first.subpath == second.subpath,
    ensures
        located(first, platform, lookup) == located(second, platform, lookup),
        located(first, platform, lookup) is Ok <==> lookup == BaseLookup::Found,
{
}

} // verus!
