use vstd::prelude::*;
use vstd::string::*;

verus! {

/// The answer to a request to download a song.
#[derive(Clone, Copy, Debug, PartialEq, Eq)]
pub struct MyResponse {
    pub success: bool,
    pub message: &'static str,
}

/// Why a download did not yield a song.
#[derive(Clone, Copy, Debug, PartialEq, Eq, Structural)]
pub enum DownloadErr {
    NoSongFound,
    ConnectionLost,
}

/// What a failed download is described as.
pub open spec fn error_text(err: DownloadErr) -> Seq<char> {
    match err {
        DownloadErr::NoSongFound => "Youtube-dl couldn't find given song."@,
        DownloadErr::ConnectionLost => "Connection lost during download of the song."@,
    }
}

/// What the requester is told of a failed download.
pub open spec fn failure_message(err: DownloadErr) -> Seq<char> {
    match err {
        DownloadErr::NoSongFound => "Youtube-dl couldn't find the given song."@,
        DownloadErr::ConnectionLost => "Youtube-dl lost the connection while downloading the song."@,
    }
}

impl DownloadErr {
    /// The description of this error.
    pub fn to_text(&self) -> (r: String)
        ensures
            r@ == error_text(*self),
    {
        match self {
            DownloadErr::NoSongFound => String::from_str("Youtube-dl couldn't find given song."),
            DownloadErr::ConnectionLost => String::from_str("Connection lost during download of the song."),
        }
    }
}

/// Whether the downloader wrote anything to its error output.
pub open spec fn has_error_output(stderr_lines: Seq<String>) -> bool {
    exists|i: int| 0 <= i < stderr_lines.len() && (#[trigger] stderr_lines[i])@.len() > 0
}

/// Judges a download by the lines of the downloader's error output: if it
/// wrote anything there, no song was found.
pub fn read_std(stderr_lines: &Vec<String>) -> (r: Result<&'static str, DownloadErr>)
    ensures
        has_error_output(stderr_lines@) ==> r == Err::<&'static str, DownloadErr>(DownloadErr::NoSongFound),
        !has_error_output(stderr_lines@) ==> r is Ok && r->Ok_0@ == "Successfully downloaded the song!"@,
{
    let mut i: usize = 0;
    while i < stderr_lines.len()
        invariant
            i <= stderr_lines@.len(),
            forall|j: int| 0 <= j < i ==> (#[trigger] stderr_lines@[j])@.len() == 0,
        decreases stderr_lines@.len() - i,
    {
        if !stderr_lines[i].as_str().is_empty() {
            return Err(DownloadErr::NoSongFound);
        }
        i += 1;
    }
    Ok("Successfully downloaded the song!")
}

/// The answer to the requester for the outcome of a download.
pub fn download_response(download_result: Result<&'static str, DownloadErr>) -> (r: MyResponse)
    ensures
        r.success == (download_result is Ok),
        match download_result {
            Ok(message) => r.message@ == message@,
            Err(err) => r.message@ == failure_message(err),
        },
{
    match download_result {
        Ok(message) => MyResponse { success: true, message },
        Err(err) => MyResponse {
            success: false,
            message: match err {
                DownloadErr::NoSongFound => "Youtube-dl couldn't find the given song.",
                DownloadErr::ConnectionLost => "Youtube-dl lost the connection while downloading the song.",
            },
        },
    }
}

} // verus!
