use home_fm_server::app_state::{download_response, read_std, DownloadErr, MyResponse};

#[test]
fn silent_downloader_has_succeeded() {
    assert_eq!(read_std(&vec![]), Ok("Successfully downloaded the song!"));
    assert_eq!(read_std(&vec![String::new(), String::new()]), Ok("Successfully downloaded the song!"));
}

#[test]
fn any_error_output_means_no_song() {
    assert_eq!(read_std(&vec!["ERROR: no video".to_string()]), Err(DownloadErr::NoSongFound));
    assert_eq!(read_std(&vec![String::new(), " ".to_string()]), Err(DownloadErr::NoSongFound));
}

#[test]
fn response_for_a_finished_download() {
    assert_eq!(
        download_response(Ok("Successfully downloaded the song!")),
        MyResponse { success: true, message: "Successfully downloaded the song!" }
    );
}

#[test]
fn response_for_a_failed_download() {
    assert_eq!(
        download_response(Err(DownloadErr::NoSongFound)),
        MyResponse { success: false, message: "Youtube-dl couldn't find the given song." }
    );
    assert_eq!(
        download_response(Err(DownloadErr::ConnectionLost)),
        MyResponse { success: false, message: "Youtube-dl lost the connection while downloading the song." }
    );
}

#[test]
fn errors_describe_themselves() {
    assert_eq!(DownloadErr::NoSongFound.to_text(), "Youtube-dl couldn't find given song.");
    assert_eq!(DownloadErr::ConnectionLost.to_text(), "Connection lost during download of the song.");
}
