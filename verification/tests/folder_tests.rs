use clickcapture::folder_manager::{get_folder_candidates, get_pictures_folder};
use clickcapture::overlay::{
    area_select_overlay_name, capturing_overlay_name, overlay_class_name, overlay_window_name,
};

#[test]
fn candidates_with_and_without_profile() {
    let with = get_folder_candidates(Some("C:\\Users\\ann"));
    assert_eq!(
        with,
        vec![
            "C:\\Users\\ann\\OneDrive\\画像",
            "C:\\Users\\ann\\OneDrive\\Pictures",
            "C:\\Users\\ann\\Pictures",
            "C:\\Users\\ann\\画像",
            "C:\\Users\\ann\\Documents",
            "C:\\Users\\ann\\Desktop",
            "C:\\Users\\Public\\Pictures",
            "C:\\Users\\Public\\Documents",
            "C:\\",
        ]
    );
    let without = get_folder_candidates(None);
    assert_eq!(without, vec!["C:\\Users\\Public\\Pictures", "C:\\Users\\Public\\Documents", "C:\\"]);
}

#[test]
fn first_writable_candidate_wins() {
    let c = get_folder_candidates(None);
    assert_eq!(get_pictures_folder(&c, &vec![false, true]), "C:\\Users\\Public\\Documents\\clickcapture");
    assert_eq!(get_pictures_folder(&c, &vec![true]), "C:\\Users\\Public\\Pictures\\clickcapture");
    assert_eq!(get_pictures_folder(&c, &vec![false, false, false]), "C:\\");
    assert_eq!(get_pictures_folder(&c, &vec![]), "C:\\");
    assert_eq!(get_pictures_folder(&c, &vec![false, false, true]), "C:\\\\clickcapture");
}

#[test]
fn overlay_names() {
    assert_eq!(overlay_window_name(area_select_overlay_name()), "ClickCapture_AreaSelect_Windows");
    assert_eq!(overlay_class_name(capturing_overlay_name()), "ClickCapture_Capturing_Class");
}
