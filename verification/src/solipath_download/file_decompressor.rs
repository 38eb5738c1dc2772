use crate::path_buf_ext::PathBufExt;
use crate::solipath_directory::cache_path::{CachePath, CachePathView};
use crate::text::{ends_with, has_suffix};
use vstd::prelude::*;

verus! {

/// How an archive is packed.
#[derive(Debug, PartialEq, Eq, Clone, Copy, Structural)]
pub enum ArchiveFormat {
    Zip,
    TarGz,
    TarXz,
    TarBz2,
    SevenZip,
}

/// The format that the name of a file stands for. The suffixes are tried in
/// this order: `.zip`; `.tar.gz` or `.tgz`; `.tar.xz`; `.tar.bz2`; `.7z`. A
/// name with none of them stands for no archive.
pub open spec fn archive_format_of(file_name: Seq<char>) -> Option<ArchiveFormat> {
    if has_suffix(file_name, ".zip"@) {
        Some(ArchiveFormat::Zip)
    } else if has_suffix(file_name, ".tar.gz"@) || has_suffix(file_name, ".tgz"@) {
        Some(ArchiveFormat::TarGz)
    } else if has_suffix(file_name, ".tar.xz"@) {
        Some(ArchiveFormat::TarXz)
    } else if has_suffix(file_name, ".tar.bz2"@) {
        Some(ArchiveFormat::TarBz2)
    } else if has_suffix(file_name, ".7z"@) {
        Some(ArchiveFormat::SevenZip)
    } else {
        None
    }
}

/// The format that the name of a file stands for.
pub fn archive_format(file_name: &str) -> (format: Option<ArchiveFormat>)
    ensures
        format == archive_format_of(file_name@),
{
    if ends_with(file_name, ".zip") {
        Some(ArchiveFormat::Zip)
    } else if ends_with(file_name, ".tar.gz") || ends_with(file_name, ".tgz") {
        Some(ArchiveFormat::TarGz)
    } else if ends_with(file_name, ".tar.xz") {
        Some(ArchiveFormat::TarXz)
    } else if ends_with(file_name, ".tar.bz2") {
        Some(ArchiveFormat::TarBz2)
    } else if ends_with(file_name, ".7z") {
        Some(ArchiveFormat::SevenZip)
    } else {
        None
    }
}

/// A name that ends in `.tar.gz` and one that ends in `.tgz` stand for the
/// same format, whatever comes before the suffix.
pub proof fn lemma_tar_gz_and_tgz_are_one_format(stem: Seq<char>, other_stem: Seq<char>)
    ensures
        archive_format_of(stem + ".tar.gz"@) == Some(ArchiveFormat::TarGz),
        archive_format_of(other_stem + ".tgz"@) == Some(ArchiveFormat::TarGz),
{
    reveal_strlit(".zip");
    reveal_strlit(".tar.gz");
    reveal_strlit(".tgz");
    let long = stem + ".tar.gz"@;
    assert(long.subrange(long.len() - 7, long.len() as int) =~= ".tar.gz"@);
    assert(!has_suffix(long, ".zip"@)) by {
        if has_suffix(long, ".zip"@) {
            assert(long.subrange(long.len() - 4, long.len() as int)[3] == 'p');
            assert(long[long.len() - 1] == 'z');
        }
    }
    let short = other_stem + ".tgz"@;
    assert(short.subrange(short.len() - 4, short.len() as int) =~= ".tgz"@);
    assert(!has_suffix(short, ".zip"@)) by {
        if has_suffix(short, ".zip"@) {
            assert(short.subrange(short.len() - 4, short.len() as int)[3] == 'p');
            assert(short[short.len() - 1] == 'z');
        }
    }
}

/// The model of a [`Decompression`].
pub enum DecompressionView {
    Unpack { format: ArchiveFormat, target_directory: CachePathView },
    Copy { target_directory: CachePathView, target_file: CachePathView },
    Nothing,
}

/// What is done with a fetched file.
#[derive(Debug, PartialEq, Eq)]
pub enum Decompression {
    /// Create the directory with its parents and unpack the archive into it.
    Unpack { format: ArchiveFormat, target_directory: CachePath },
    /// Create the directory with its parents and copy the file to
    /// `target_file`, byte for byte.
    Copy { target_directory: CachePath, target_file: CachePath },
    /// Leave the file alone.
    Nothing,
}

impl DeepView for Decompression {
    type V = DecompressionView;

    open spec fn deep_view(&self) -> DecompressionView {
        match self {
            Decompression::Unpack { format, target_directory } => DecompressionView::Unpack {
                format: *format,
                target_directory: target_directory@,
            },
            Decompression::Copy { target_directory, target_file } => DecompressionView::Copy {
                target_directory: target_directory@,
                target_file: target_file@,
            },
            Decompression::Nothing => DecompressionView::Nothing,
        }
    }
}

impl View for Decompression {
    type V = DecompressionView;

    open spec fn view(&self) -> DecompressionView {
        self.deep_view()
    }
}

/// What the extractor does with a file of the name `file_name` that is
/// destined for `target_directory`: an archive is unpacked into the
/// directory, any other file is copied into it under its own name.
pub open spec fn decompression_of(
    file_name: Seq<char>,
    target_directory: CachePathView,
) -> DecompressionView {
    match archive_format_of(file_name) {
        Some(format) => DecompressionView::Unpack { format, target_directory },
        None => DecompressionView::Copy {
            target_directory,
            target_file: target_directory.push(file_name),
        },
    }
}

/// Decides what is done with a fetched file.
pub trait FileDecompressorTrait {
    /// What is done with a file of that name, destined for that directory.
    spec fn decompression(
        &self,
        file_name: Seq<char>,
        target_directory: CachePathView,
    ) -> DecompressionView;

    fn decompress_file_to_directory(
        &self,
        file_name: &str,
        target_directory: &CachePath,
    ) -> (step: Decompression)
        ensures
            step@ == self.decompression(file_name@, target_directory@),
    ;
}

/// Unpacks archives and copies everything else.
pub struct FileDecompressor;

impl FileDecompressor {
    pub fn new() -> Self {
        FileDecompressor
    }
}

impl FileDecompressorTrait for FileDecompressor {
    open spec fn decompression(
        &self,
        file_name: Seq<char>,
        target_directory: CachePathView,
    ) -> DecompressionView {
        decompression_of(file_name, target_directory)
    }

    fn decompress_file_to_directory(
        &self,
        file_name: &str,
        target_directory: &CachePath,
    ) -> (step: Decompression) {
        match archive_format(file_name) {
            Some(format) => Decompression::Unpack {
                format,
                target_directory: target_directory.clone(),
            },
            None => Decompression::Copy {
                target_directory: target_directory.clone(),
                target_file: target_directory.clone_push(file_name),
            },
        }
    }
}

/// Leaves every file alone: for runs that only look whether a download is
/// there.
pub struct FakeDecompressor;

impl FakeDecompressor {
    pub fn new() -> Self {
        FakeDecompressor
    }
}

impl FileDecompressorTrait for FakeDecompressor {
    open spec fn decompression(
        &self,
        file_name: Seq<char>,
        target_directory: CachePathView,
    ) -> DecompressionView {
        DecompressionView::Nothing
    }

    fn decompress_file_to_directory(
        &self,
        file_name: &str,
        target_directory: &CachePath,
    ) -> (step: Decompression) {
        Decompression::Nothing
    }
}

} // verus!
