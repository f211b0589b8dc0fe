use capture_card_viewer::errors::AppError;
use capture_card_viewer::video::{
    classify_camera_error, classify_lowercase_camera_error, find_video_device, CameraIndex,
};

fn devices() -> Vec<(String, CameraIndex)> {
    vec![
        ("USB Video".to_string(), CameraIndex::Index(0)),
        ("Cam Link 4K".to_string(), CameraIndex::String("/dev/video2".to_string())),
        ("USB Video".to_string(), CameraIndex::Index(3)),
    ]
}

#[test]
fn video_device_found_by_name() {
    assert_eq!(
        find_video_device("Cam Link 4K", &devices()),
        Ok(CameraIndex::String("/dev/video2".to_string()))
    );
}

#[test]
fn video_device_first_of_same_name() {
    assert_eq!(find_video_device("USB Video", &devices()), Ok(CameraIndex::Index(0)));
}

#[test]
fn video_device_missing_or_empty_name() {
    assert_eq!(find_video_device("", &devices()), Err(AppError::VideoDeviceNotFound));
    assert_eq!(find_video_device("Elgato", &devices()), Err(AppError::VideoDeviceNotFound));
    assert_eq!(find_video_device("usb video", &devices()), Err(AppError::VideoDeviceNotFound));
    assert_eq!(find_video_device("USB Video", &[]), Err(AppError::VideoDeviceNotFound));
}

#[test]
fn camera_index_copy() {
    let i = CameraIndex::String("/dev/video0".to_string());
    assert_eq!(i.duplicate(), i);
}

#[test]
fn camera_errors_in_use() {
    assert_eq!(classify_camera_error("Access is denied. (0x80070005)"), AppError::VideoDeviceInUse);
    assert_eq!(classify_camera_error("Device or resource BUSY"), AppError::VideoDeviceInUse);
    assert_eq!(classify_camera_error("Camera IN USE by another app"), AppError::VideoDeviceInUse);
    assert_eq!(classify_camera_error("HRESULT 0X80070005"), AppError::VideoDeviceInUse);
    assert_eq!(classify_camera_error("Permission DENIED"), AppError::VideoDeviceInUse);
}

#[test]
fn camera_errors_other() {
    assert_eq!(classify_camera_error("Timeout waiting for frame"), AppError::VideoStreamFailed);
    assert_eq!(classify_camera_error(""), AppError::VideoStreamFailed);
    assert_eq!(classify_camera_error("inuse"), AppError::VideoStreamFailed);
}

#[test]
fn lowercase_classification_is_case_sensitive() {
    assert_eq!(classify_lowercase_camera_error("busy"), AppError::VideoDeviceInUse);
    assert_eq!(classify_lowercase_camera_error("BUSY"), AppError::VideoStreamFailed);
}
