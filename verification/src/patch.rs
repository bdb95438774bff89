//! The patch operation: from a record and an image to a configured image.
//!
//! The caller owns the file system. It resolves the bundled image and the
//! cache directory, hands the outcome of both to [`append_config`], and on
//! success reads the image, lets [`PatchJob::write`] lay out the bytes and
//! stores them under [`OUTPUT_FILE_NAME`] in the cache directory, replacing
//! whatever an earlier request left there.

use vstd::prelude::*;
use crate::error::CmdError;
use crate::layout::{configured, overwrite};
use crate::record::{name_too_long, write_failed, Config};

verus! {

/// The name of the configured image inside the cache directory.
pub const OUTPUT_FILE_NAME: &'static str = "sketch.cfg.bin";

/// What is left to do once a request has been accepted: where to read the
/// image, where to put the result, and the encoded record to append.
/// `P` is whatever the caller uses to name a place on disk.
#[derive(Debug)]
pub struct PatchJob<P> {
    /// The bundled, unconfigured image.
    pub source: P,
    /// The directory that receives the configured image.
    pub cache_dir: P,
    /// The encoded record.
    pub encoded: Vec<u8>,
}

impl<P> PatchJob<P> {
    /// Lays out the configured image in `dst`, replacing what it held.
    pub fn write(&self, dst: &mut Vec<u8>, image: &[u8])
        ensures
            final(dst)@ == configured(image@, self.encoded@),
    {
        overwrite(dst, image, self.encoded.as_slice());
    }
}

/// The outcome of a request, given the outcome of each of its steps.
///
/// The steps are taken in a fixed order and the first failure wins: the
/// record is encoded, then the image is resolved, then the cache directory.
pub open spec fn planned<P>(
    encoded: Result<Vec<u8>, CmdError>,
    source: Option<P>,
    cache_dir: Option<P>,
) -> Result<PatchJob<P>, CmdError> {
    match encoded {
        Err(e) => Err(e),
        Ok(bytes) => match source {
            None => Err(CmdError::Resolve("source path")),
            Some(from) => match cache_dir {
                None => Err(CmdError::Resolve("cache dir path")),
                Some(to) => Ok(PatchJob { source: from, cache_dir: to, encoded: bytes }),
            },
        },
    }
}

/// Decides a request from the outcome of each of its steps.
pub fn plan<P>(encoded: Result<Vec<u8>, CmdError>, source: Option<P>, cache_dir: Option<P>) -> (r:
    Result<PatchJob<P>, CmdError>)
    ensures
        r == planned(encoded, source, cache_dir),
{
    let bytes = match encoded {
        Ok(bytes) => bytes,
        Err(e) => {
            return Err(e);
        },
    };
    let from = match source {
        Some(from) => from,
        None => {
            return Err(CmdError::Resolve("source path"));
        },
    };
    let to = match cache_dir {
        Some(to) => to,
        None => {
            return Err(CmdError::Resolve("cache dir path"));
        },
    };
    Ok(PatchJob { source: from, cache_dir: to, encoded: bytes })
}

/// Accepts or refuses a request to configure an image.
///
/// `source` is the resolved place of the bundled image, `None` if it could
/// not be resolved or no file is there; `cache_dir` is that of the cache
/// directory, `None` if it could not be resolved. Nothing is read or written
/// here.
pub fn append_config<P>(source: Option<P>, cache_dir: Option<P>, config: &Config) -> (r: Result<
    PatchJob<P>,
    CmdError,
>)
    ensures
        match r {
            Ok(job) => {
                &&& config@.encodable()
                &&& job.encoded@ == config@.encoding()
                &&& source == Some(job.source)
                &&& cache_dir == Some(job.cache_dir)
            },
            Err(CmdError::Encode(_)) => true,
            Err(CmdError::Resolve(what)) => {
                &&& config@.encodable()
                &&& if source is None {
                    what@ == "source path"@
                } else {
                    cache_dir is None && what@ == "cache dir path"@
                }
            },
            Err(CmdError::Io(_)) => false,
        },
        !config@.encodable() ==> (r matches Err(CmdError::Encode(cause)) && cause@
            == name_too_long()),
        (r matches Err(CmdError::Encode(cause)) && cause@ == name_too_long())
            ==> !config@.encodable(),
        config@.encodable() ==> (r matches Err(CmdError::Encode(cause)) ==> cause@
            == write_failed()),
{
    plan(config.encode(), source, cache_dir)
}

/// Configures an image that is already in memory: encodes the record and
/// lays out the configured image in `dst`, replacing what it held. When the
/// record cannot be encoded, `dst` is left as it was.
pub fn patch_into(dst: &mut Vec<u8>, image: &[u8], config: &Config) -> (r: Result<(), CmdError>)
    ensures
        match r {
            Ok(_) => config@.encodable() && final(dst)@ == configured(
                image@,
                config@.encoding(),
            ),
            Err(e) => e is Encode && final(dst)@ == old(dst)@,
        },
        !config@.encodable() ==> (r matches Err(CmdError::Encode(cause)) && cause@
            == name_too_long()),
        (r matches Err(CmdError::Encode(cause)) && cause@ == name_too_long())
            ==> !config@.encodable(),
        config@.encodable() ==> (r is Ok || (r matches Err(CmdError::Encode(cause)) && cause@
            == write_failed())),
{
    match config.encode() {
        Ok(encoded) => {
            overwrite(dst, image, encoded.as_slice());
            Ok(())
        },
        Err(e) => Err(e),
    }
}

/// A request whose image cannot be resolved is never accepted, and once the
/// record has been encoded the failure is the missing image, whatever became
/// of the cache directory.
pub proof fn missing_source_is_refused<P>(encoded: Result<Vec<u8>, CmdError>, cache_dir: Option<P>)
    ensures
        planned::<P>(encoded, None, cache_dir) is Err,
        encoded is Ok ==> planned::<P>(encoded, None, cache_dir) == Err::<PatchJob<P>, CmdError>(
            CmdError::Resolve("source path"),
        ),
{
}

} // verus!
