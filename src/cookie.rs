//! The credential used against the node's RPC: either a fixed value from
//! configuration or the node's cookie file, read afresh on every use.
use vstd::prelude::*;
use vstd::string::StrSliceExecFns;
use vstd::utf8::encode_utf8;
use crate::errors::Error;
use crate::path::{join, path_join};

verus! {

/// Name of the node's cookie file inside its data directory.
pub const COOKIE_FILE_NAME: &'static str = ".cookie";

/// Where a credential comes from, as a value.
pub enum CookieSource {
    /// A fixed byte sequence.
    Fixed(Seq<u8>),
    /// The cookie file in the given directory.
    File(Seq<char>),
}

/// What obtaining the credential from `src` yields, when reading the cookie
/// file would give `file` (`None`: the read fails).
pub open spec fn cookie_outcome(src: CookieSource, file: Option<Seq<u8>>) -> Option<Seq<u8>> {
    match src {
        CookieSource::Fixed(v) => Some(v),
        CookieSource::File(_) => file,
    }
}

pub open spec fn cookie_path_in(dir: Seq<char>) -> Seq<char> {
    path_join(dir, ".cookie"@)
}

/// What a read of the cookie file gave, if one was made: its bytes, or
/// `None` when there was no read or it failed.
pub open spec fn read_contents(read: Option<Result<Vec<u8>, std::io::Error>>) -> Option<Seq<u8>> {
    match read {
        Some(Ok(b)) => Some(b@),
        _ => None,
    }
}

/// The message of a failed read of the cookie file at `path`.
pub open spec fn cookie_read_message(path: Seq<char>) -> Seq<char> {
    "failed to read cookie from \""@ + path + "\""@
}

/// A credential captured when the getter was made.
#[derive(Debug)]
pub struct StaticCookie {
    pub value: Vec<u8>,
}

impl StaticCookie {
    /// The captured credential; never fails.
    pub fn get(&self) -> (r: Result<Vec<u8>, Error>)
        ensures
            r matches Ok(v) && v@ == self.value@,
    {
        let mut v: Vec<u8> = Vec::new();
        let mut i: usize = 0;
        while i < self.value.len()
            invariant
                i <= self.value@.len(),
                v@ == self.value@.subrange(0, i as int),
            decreases self.value@.len() - i,
        {
            v.push(self.value[i]);
            i = i + 1;
            proof {
                assert(v@ =~= self.value@.subrange(0, i as int));
            }
        }
        proof {
            assert(v@ =~= self.value@);
        }
        Ok(v)
    }
}

/// A credential read from the node's cookie file at each use.
#[derive(Debug)]
pub struct CookieFile {
    pub daemon_dir: String,
}

/// The message naming the cookie file at `path` that could not be read.
pub fn cookie_read_failure(path: &str) -> (r: String)
    ensures
        r@ == cookie_read_message(path@),
{
    let mut r = "failed to read cookie from \"".to_owned();
    r.push_str(path);
    r.push_str("\"");
    proof {
        reveal_strlit("failed to read cookie from \"");
        reveal_strlit("\"");
        assert(r@ =~= cookie_read_message(path@));
    }
    r
}

impl CookieFile {
    /// The file the credential is read from: `.cookie` in the data directory.
    pub fn path(&self) -> (r: String)
        ensures
            r@ == cookie_path_in(self.daemon_dir@),
    {
        proof {
            reveal_strlit(".cookie");
        }
        join(self.daemon_dir.as_str(), COOKIE_FILE_NAME)
    }

    /// The credential, given what reading the cookie file returned this
    /// time: its bytes as they are, or a connection error that names the
    /// file and keeps the read's failure as its cause.
    pub fn get_from(&self, read: Result<Vec<u8>, std::io::Error>) -> (r: Result<Vec<u8>, Error>)
        ensures
            match read {
                Ok(b) => r matches Ok(v) && v@ == b@,
                Err(_) => r matches Err(Error::Connection { message, .. })
                    && message@ == cookie_read_message(cookie_path_in(self.daemon_dir@)),
            },
    {
        match read {
            Ok(b) => Ok(b),
            Err(e) => {
                let path = self.path();
                Err(Error::Connection { message: cookie_read_failure(path.as_str()), cause: e })
            },
        }
    }
}

/// The credential accessor: a fixed value or the node's cookie file.
#[derive(Debug)]
pub enum CookieGetter {
    Static(StaticCookie),
    File(CookieFile),
}

impl CookieGetter {
    pub open spec fn source(&self) -> CookieSource {
        match self {
            CookieGetter::Static(s) => CookieSource::Fixed(s.value@),
            CookieGetter::File(f) => CookieSource::File(f.daemon_dir@),
        }
    }

    /// The file that obtaining the credential reads, if any.
    pub fn file_to_read(&self) -> (r: Option<String>)
        ensures
            match self {
                CookieGetter::Static(_) => r is None,
                CookieGetter::File(f) => r matches Some(p) && p@ == cookie_path_in(f.daemon_dir@),
            },
    {
        match self {
            CookieGetter::Static(_) => None,
            CookieGetter::File(f) => Some(f.path()),
        }
    }

    /// The credential, given the result of reading the file named by
    /// `file_to_read` (`None` when there is no file to read): the fixed value,
    /// or the file's bytes as read this time, or a connection error naming
    /// the file.
    pub fn get_given(&self, read: Option<Result<Vec<u8>, std::io::Error>>) -> (r: Result<Vec<u8>, Error>)
        requires
            self is File ==> read is Some,
        ensures
            match cookie_outcome(self.source(), read_contents(read)) {
                Some(v) => r matches Ok(b) && b@ == v,
                None => r matches Err(Error::Connection { message, .. }) && self is File
                    && message@ == cookie_read_message(cookie_path_in(self->File_0.daemon_dir@)),
            },
    {
        match self {
            CookieGetter::Static(s) => s.get(),
            CookieGetter::File(f) => f.get_from(read.unwrap()),
        }
    }
}

/// The getter for a configured credential: its UTF-8 bytes.
pub fn static_cookie_of(value: &str) -> (r: StaticCookie)
    ensures
        r.value@ == encode_utf8(value@),
{
    StaticCookie { value: value.as_bytes_vec() }
}

} // verus!
