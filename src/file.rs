//! Files to send: held in memory, on disk, already stored by the service, or at a URL.
//!
//! A request that carries files names each of them in its fields: a stored file by its
//! identifier, a URL as it is, and a file that is uploaded along with the request by an
//! `attach://<name>` reference to the form part that carries its bytes.
use vstd::prelude::*;
use crate::error::{Error, ErrorKind};
use crate::text::{concat_str, opt_view};

verus! {

/// The last component of a path, when it names a file (`std::path::Path::file_name`).
pub uninterp spec fn path_file_name(path: Seq<char>) -> Option<Seq<char>>;

/// Relies on `std::path::Path::file_name`: the last component of the path, which depends on
/// the path alone. A name taken from a `&str` path is valid Unicode, so the conversion back
/// to a string loses nothing.
#[verifier::external_body]
fn file_name_of(path: &str) -> (r: Option<String>)
    ensures
        match r {
            Some(n) => path_file_name(path@) == Some(n@),
            None => path_file_name(path@) is None,
        },
{
    match std::path::Path::new(path).file_name() {
        Some(n) => Some(n.to_string_lossy().into_owned()),
        None => None,
    }
}

/// A file to send.
#[derive(Debug)]
pub enum File {
    /// Bytes held in memory, uploaded under `name`.
    Memory { name: String, source: Vec<u8> },
    /// A file on disk, uploaded under its file name.
    Disk { path: String },
    /// A file that the service already stores, by its identifier.
    Telegram(String),
    /// A file that the service fetches from a URL.
    Url(String),
}

/// The reference to an uploaded part of the given name.
pub open spec fn attach(name: Seq<char>) -> Seq<char> {
    "attach://"@ + name
}

/// The name under which a file's bytes are uploaded, for the files that are uploaded.
pub open spec fn upload_name(f: File) -> Option<Seq<char>> {
    match f {
        File::Memory { name, .. } => Some(name@),
        File::Disk { path } => path_file_name(path@),
        File::Telegram(_) => None,
        File::Url(_) => None,
    }
}

/// How a request names a file: uploaded files by an attachment reference (a path without a
/// file name gives an empty one), the others by their identifier or URL.
pub open spec fn file_reference(f: File) -> Seq<char> {
    match f {
        File::Telegram(id) => id@,
        File::Url(url) => url@,
        _ => attach(
            match upload_name(f) {
                Some(n) => n,
                None => Seq::empty(),
            },
        ),
    }
}

impl File {
    /// How a request names this file.
    pub fn name(&self) -> (r: String)
        ensures
            r@ == file_reference(*self),
    {
        match self {
            File::Memory { name, .. } => concat_str("attach://", name.as_str()),
            File::Disk { path } => {
                match file_name_of(path.as_str()) {
                    Some(n) => concat_str("attach://", n.as_str()),
                    None => {
                        proof {
                            reveal_strlit("");
                        }
                        assert(""@ =~= Seq::<char>::empty());
                        concat_str("attach://", "")
                    },
                }
            },
            File::Telegram(id) => id.clone(),
            File::Url(url) => url.clone(),
        }
    }

    /// The name of the form part that carries this file's bytes, for a file that is uploaded.
    pub fn part_name(&self) -> (r: Option<String>)
        ensures
            match r {
                Some(n) => upload_name(*self) == Some(n@),
                None => upload_name(*self) is None,
            },
    {
        match self {
            File::Memory { name, .. } => Some(name.clone()),
            File::Disk { path } => file_name_of(path.as_str()),
            File::Telegram(_) => None,
            File::Url(_) => None,
        }
    }

    /// Converts a value into a file.
    pub fn try_from<T: TryIntoFile>(value: T) -> (r: Result<Self, T::Error>)
        ensures
            r is Ok <==> value.converts(),
            r matches Ok(f) ==> value.converts_to(f),
    {
        value.try_into()
    }
}

/// Values that can become a file.
pub trait TryIntoFile: Sized {
    type Error;

    /// Whether the conversion succeeds.
    spec fn converts(self) -> bool;

    /// Whether `f` is what the conversion gives.
    spec fn converts_to(self, f: File) -> bool;

    fn try_into(self) -> (r: Result<File, Self::Error>)
        ensures
            r is Ok <==> self.converts(),
            r matches Ok(f) ==> self.converts_to(f),
    ;
}

impl TryIntoFile for File {
    type Error = ();

    open spec fn converts(self) -> bool {
        true
    }

    open spec fn converts_to(self, f: File) -> bool {
        f == self
    }

    fn try_into(self) -> (r: Result<File, ()>) {
        Ok(self)
    }
}

/// A path on disk; one without a file name cannot name a file.
impl<'a> TryIntoFile for &'a str {
    type Error = Error;

    open spec fn converts(self) -> bool {
        path_file_name(self@) is Some
    }

    open spec fn converts_to(self, f: File) -> bool {
        f matches File::Disk { path } && path@ == self@
    }

    fn try_into(self) -> (r: Result<File, Error>) {
        match file_name_of(self) {
            Some(_) => Ok(File::Disk { path: self.to_owned() }),
            None => Err(Error::of_kind(ErrorKind::NoFile)),
        }
    }
}

/// A name and the bytes to upload under it.
impl<'a> TryIntoFile for (&'a str, Vec<u8>) {
    type Error = Error;

    open spec fn converts(self) -> bool {
        true
    }

    open spec fn converts_to(self, f: File) -> bool {
        f matches File::Memory { name, source } && name@ == self.0@ && source@ == self.1@
    }

    fn try_into(self) -> (r: Result<File, Error>) {
        let (name, source) = self;
        Ok(File::Memory { name: name.to_owned(), source })
    }
}

/// A file with the caption and parse mode to show it with.
#[derive(Debug)]
pub struct FileWithCaption {
    pub file: File,
    pub caption: Option<String>,
    pub parse_mode: Option<String>,
}

impl FileWithCaption {
    pub fn new_empty(file: File) -> (r: FileWithCaption)
        ensures
            r.file == file,
            r.caption is None,
            r.parse_mode is None,
    {
        FileWithCaption { file, caption: None, parse_mode: None }
    }

    pub fn new(file: File, caption: String, parse_mode: String) -> (r: FileWithCaption)
        ensures
            r.file == file,
            r.caption == Some(caption),
            r.parse_mode == Some(parse_mode),
    {
        FileWithCaption { file, caption: Some(caption), parse_mode: Some(parse_mode) }
    }
}

/// How a request's file field names its files: one file by its reference, several as a
/// group of media entries.
#[derive(Debug)]
pub enum MediaFile {
    SingleFile(String),
    MultipleFiles(Vec<FileEntity>),
}

/// One entry of a media group.
#[derive(Debug)]
pub enum FileEntity {
    Photo {
        type_: &'static str,
        media: String,
        caption: Option<String>,
        parse_mode: Option<String>,
    },
    Video {},
}

/// `e` is the photo entry of the media group for `f`.
pub open spec fn photo_entry(e: FileEntity, f: FileWithCaption) -> bool {
    e matches FileEntity::Photo { type_, media, caption, parse_mode } && type_@ == "photo"@
        && media@ == file_reference(f.file) && opt_view(caption) == opt_view(f.caption)
        && opt_view(parse_mode) == opt_view(f.parse_mode)
}

fn copy_opt(o: &Option<String>) -> (r: Option<String>)
    ensures
        opt_view(r) == opt_view(*o),
{
    match o {
        Some(s) => Some(s.clone()),
        None => None,
    }
}

/// The files of a request, in order.
#[derive(Debug)]
pub struct FileList(pub Vec<FileWithCaption>);

impl FileList {
    /// How the request's file field names the files: nothing for no file, the reference of a
    /// single file, or one photo entry per file.
    pub fn to_metadata(&self) -> (r: Option<MediaFile>)
        ensures
            self.0@.len() == 0 <==> r is None,
            self.0@.len() == 1 <==> r is Some && r->0 is SingleFile,
            r matches Some(MediaFile::SingleFile(s)) ==> s@ == file_reference(self.0@[0].file),
            r matches Some(MediaFile::MultipleFiles(es)) ==> es@.len() == self.0@.len() && forall|
                i: int,
            |
                0 <= i < es@.len() ==> photo_entry(#[trigger] es@[i], self.0@[i]),
    {
        if self.0.len() == 0 {
            None
        } else if self.0.len() == 1 {
            Some(MediaFile::SingleFile(self.0[0].file.name()))
        } else {
            let mut entities: Vec<FileEntity> = Vec::new();
            let mut i: usize = 0;
            while i < self.0.len()
                invariant
                    i <= self.0@.len(),
                    entities@.len() == i,
                    forall|j: int| 0 <= j < i ==> photo_entry(#[trigger] entities@[j], self.0@[j]),
                decreases self.0@.len() - i,
            {
                let x = &self.0[i];
                let e = FileEntity::Photo {
                    type_: "photo",
                    media: x.file.name(),
                    caption: copy_opt(&x.caption),
                    parse_mode: copy_opt(&x.parse_mode),
                };
                entities.push(e);
                i = i + 1;
            }
            Some(MediaFile::MultipleFiles(entities))
        }
    }

    /// The files alone, in order; nothing when there is none.
    pub fn into_files(self) -> (r: Option<Vec<File>>)
        ensures
            match r {
                Some(v) => self.0@.len() > 0 && v@ == self.0@.map_values(
                    |x: FileWithCaption| x.file,
                ),
                None => self.0@.len() == 0,
            },
    {
        if self.0.len() == 0 {
            return None;
        }
        let ghost all = self.0@;
        let mut out: Vec<File> = Vec::new();
        for x in it: self.0.into_iter()
            invariant
                it.seq() == all,
                out@ == all.take(it.index() as int).map_values(|x: FileWithCaption| x.file),
        {
            let ghost before = out@;
            let FileWithCaption { file, .. } = x;
            out.push(file);
            assert(all.take(it.index() + 1).map_values(|x: FileWithCaption| x.file) =~= before.push(file));
        }
        assert(all.take(all.len() as int) == all);
        Some(out)
    }

    pub fn push(&mut self, val: FileWithCaption)
        ensures
            final(self).0@ == old(self).0@.push(val),
    {
        self.0.push(val);
    }
}

} // verus!
