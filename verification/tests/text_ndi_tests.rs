use nmosh::ndi::{
    copy_video_frame, initial_video_pixels, push_candidate, receive_step, select_source_index,
    video_frame_layout, LibraryCandidate, NdiFrame, ReceiveStep,
};
use nmosh::overlay::non_empty;
use nmosh::text::{contains_case_insensitive, eq_ignore_ascii_case, push_decimal_u8};

#[test]
fn case_insensitive_search() {
    assert!(contains_case_insensitive("OBS Studio", "obs"));
    assert!(contains_case_insensitive("obs studio", "STUDIO"));
    assert!(contains_case_insensitive("anything", ""));
    assert!(!contains_case_insensitive("OBS", "obs studio"));
    assert!(!contains_case_insensitive("Ärger", "äR"));
    assert!(eq_ignore_ascii_case("Processing.NDI.Lib.x64.dll", "processing.ndi.lib.X64.DLL"));
    assert!(!eq_ignore_ascii_case("a", "ab"));
}

#[test]
fn trim_and_decimal() {
    assert_eq!(non_empty("  OBS \t\n".to_string()), Some("OBS".to_string()));
    assert_eq!(non_empty("\u{3000}x\u{a0}".to_string()), Some("x".to_string()));
    assert_eq!(non_empty("\u{2003}".to_string()), None);
    let mut s = String::from("n=");
    push_decimal_u8(&mut s, 0);
    push_decimal_u8(&mut s, 42);
    push_decimal_u8(&mut s, 255);
    assert_eq!(s, "n=042255");
}

#[test]
fn layout_rejects_unusable_frames() {
    assert!(video_frame_layout(0, 10, 40).is_none());
    assert!(video_frame_layout(10, -1, 40).is_none());
    assert!(video_frame_layout(10, 10, 0).is_none());
    assert!(video_frame_layout(10, 10, 39).is_none());
    let layout = video_frame_layout(10, 2, 48).unwrap();
    assert_eq!(layout.width, 10);
    assert_eq!(layout.height, 2);
    assert_eq!(layout.row_bytes, 40);
    assert_eq!(layout.source_len(), 96);
}

#[test]
fn copy_drops_row_padding() {
    let layout = video_frame_layout(2, 2, 12).unwrap();
    let source: Vec<u8> = (0u8..24).collect();
    let frame = copy_video_frame(&layout, &source);
    assert_eq!(frame.width, 2);
    assert_eq!(frame.height, 2);
    assert_eq!(frame.data, vec![0, 1, 2, 3, 4, 5, 6, 7, 12, 13, 14, 15, 16, 17, 18, 19]);
}

#[test]
fn upload_needs_a_full_frame() {
    let frame = NdiFrame { width: 2, height: 2, data: vec![0; 16] };
    assert_eq!(frame.upload_len(), Some(16));
    let longer = NdiFrame { width: 2, height: 1, data: vec![0; 16] };
    assert_eq!(longer.upload_len(), Some(8));
    let short = NdiFrame { width: 2, height: 2, data: vec![0; 15] };
    assert_eq!(short.upload_len(), None);
    let empty = NdiFrame { width: 0, height: 2, data: vec![0; 16] };
    assert_eq!(empty.upload_len(), None);
    let no_data = NdiFrame { width: 1, height: 1, data: vec![] };
    assert_eq!(no_data.upload_len(), None);
}

#[test]
fn pixel_is_read_as_rgb_from_bgra() {
    let frame = NdiFrame { width: 2, height: 1, data: vec![1, 2, 3, 255, 10, 20, 30, 255] };
    assert_eq!(frame.pixel_rgb(0, 0), Some([3, 2, 1]));
    assert_eq!(frame.pixel_rgb(1, 0), Some([30, 20, 10]));
    assert_eq!(frame.pixel_rgb(0, 1), None);
    assert_eq!(frame.pixel_rgb(usize::MAX, usize::MAX), None);
    assert!(initial_video_pixels().iter().all(|b| *b == 0));
}

#[test]
fn source_selection() {
    let names = vec!["STUDIO (OBS)".to_string(), "CAM (vMix)".to_string()];
    assert_eq!(select_source_index(&names, None), Some(0));
    assert_eq!(select_source_index(&names, Some("vmix")), Some(1));
    assert_eq!(select_source_index(&names, Some("obs")), Some(0));
    assert_eq!(select_source_index(&names, Some("tricaster")), None);
    assert_eq!(select_source_index(&Vec::new(), None), None);
}

#[test]
fn candidates_are_deduplicated_ignoring_case() {
    let mut candidates: Vec<LibraryCandidate<u32>> = Vec::new();
    push_candidate(&mut candidates, 1, "C:\\NDI\\Processing.NDI.Lib.x64.dll".to_string());
    push_candidate(&mut candidates, 2, "c:\\ndi\\processing.ndi.lib.x64.dll".to_string());
    push_candidate(&mut candidates, 3, "libndi.so".to_string());
    assert_eq!(candidates.len(), 2);
    assert_eq!(candidates[0].path, 1);
    assert_eq!(candidates[1].path, 3);
}

#[test]
fn receiver_reactions() {
    assert_eq!(receive_step(1), ReceiveStep::StoreFrame);
    assert_eq!(receive_step(100), ReceiveStep::StatusChanged);
    assert_eq!(receive_step(4), ReceiveStep::Stop);
    assert_eq!(receive_step(0), ReceiveStep::Continue);
    assert_eq!(receive_step(2), ReceiveStep::Continue);
}
