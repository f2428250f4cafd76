use formula_scanner::capture::{display_name, overlay_label, overlay_url, region_capture_file_name};
use formula_scanner::encoding::{
    base64_image_result, clipboard_png_result, data_url, decode_image_base64, image_data_url,
    image_file_stem, png_data_url, stem_from_stamp,
};
use formula_scanner::settings::{get_default_prompts, get_full_prompts_with_language, get_prompt_parts};
use formula_scanner::prompts::{format_rule_for_latex, ANALYSIS_CONSTRAINT_ZH, BASE_ANALYSIS_PROMPT, BASE_LATEX_PROMPT};

#[test]
fn data_urls() {
    assert_eq!(png_data_url("QUJD"), "data:image/png;base64,QUJD");
    assert_eq!(image_data_url("a/b.PNG", b"ABC"), "data:image/png;base64,QUJD");
    assert_eq!(image_data_url("photo.JPG", b"hi"), "data:image/jpeg;base64,aGk=");
    assert_eq!(image_data_url("x.jpeg", b""), "data:image/jpeg;base64,");
    assert_eq!(image_data_url("anim.Gif", b"a"), "data:image/gif;base64,YQ==");
    assert_eq!(image_data_url("noext", b"a"), "data:image/png;base64,YQ==");
}

#[test]
fn base64_decoding() {
    assert_eq!(decode_image_base64("QUJD").unwrap(), b"ABC".to_vec());
    let e = decode_image_base64("not base64!").unwrap_err();
    assert!(e.starts_with("Failed to decode base64 image: "));
}

#[test]
fn file_stems() {
    assert_eq!(
        image_file_stem("2024-03-05T07:08:09+08:00", "id1", "19700101_000000"),
        "20240305_070809_id1"
    );
    assert_eq!(image_file_stem("garbage", "id2", "20250101_120000"), "20250101_120000_id2");
}

#[test]
fn overlay_names() {
    assert_eq!(overlay_label(0), "snip-overlay-0");
    assert_eq!(overlay_label(12), "snip-overlay-12");
    assert_eq!(overlay_url(3), "/overlay?i=3");
    assert_eq!(display_name(0), "Display 1");
    assert_eq!(display_name(9), "Display 10");
    assert_eq!(region_capture_file_name("u-1"), "region_capture_u-1.png");
}

#[test]
fn settings_prompt_views() {
    let d = get_default_prompts();
    assert_eq!(d.latex_prompt, BASE_LATEX_PROMPT);
    assert!(d.analysis_language.is_none());
    let f = get_full_prompts_with_language("zh-CN");
    assert_eq!(f.latex_prompt, BASE_LATEX_PROMPT);
    assert_eq!(f.analysis_prompt, format!("{}\n\n{}", BASE_ANALYSIS_PROMPT, ANALYSIS_CONSTRAINT_ZH));
    assert_eq!(f.analysis_language.as_deref(), Some(ANALYSIS_CONSTRAINT_ZH));
    let p = get_prompt_parts("zh-CN", "raw");
    assert_eq!(p.latex.full, format!("{}{}", BASE_LATEX_PROMPT, format_rule_for_latex("raw")));
    assert_eq!(p.latex.language, "");
    assert_eq!(p.analysis.language, ANALYSIS_CONSTRAINT_ZH);
    assert!(p.analysis.format_rule.is_none());
}

#[test]
fn data_url_parts() {
    assert_eq!(data_url("image/gif", "R0lG"), "data:image/gif;base64,R0lG");
    assert_eq!(data_url("", ""), "data:;base64,");
}

#[test]
fn decode_outcomes() {
    assert_eq!(base64_image_result(Ok(vec![1, 2])), Ok(vec![1, 2]));
    assert_eq!(
        base64_image_result(Err("Invalid byte 32, offset 3.".to_string())),
        Err("Failed to decode base64 image: Invalid byte 32, offset 3.".to_string())
    );
}

#[test]
fn clipboard_outcomes() {
    assert_eq!(clipboard_png_result(Some(Ok(vec![9]))), Ok(vec![9]));
    assert_eq!(
        clipboard_png_result(None),
        Err("Failed to create image buffer from clipboard data".to_string())
    );
    assert_eq!(
        clipboard_png_result(Some(Err("io".to_string()))),
        Err("Failed to encode clipboard image: io".to_string())
    );
}

#[test]
fn stems_from_stamps() {
    assert_eq!(stem_from_stamp(Some("20240101_000000".to_string()), "x", "N"), "20240101_000000_x");
    assert_eq!(stem_from_stamp(None, "x", "N"), "N_x");
}

#[test]
fn base64_decoding_is_canonical() {
    assert_eq!(decode_image_base64("QQ==").unwrap(), b"A".to_vec());
    assert_eq!(decode_image_base64("").unwrap(), Vec::<u8>::new());
    // Missing padding, set trailing bits and stray characters are refused.
    assert!(decode_image_base64("QQ").is_err());
    assert!(decode_image_base64("QR==").is_err());
    assert!(decode_image_base64("QU JD").is_err());
}

#[test]
fn display_index_checks() {
    assert!(formula_scanner::capture::check_display_index(0, 1).is_ok());
    assert_eq!(
        formula_scanner::capture::check_display_index(2, 2),
        Err("Display index 2 out of range".to_string())
    );
}

#[test]
fn base64_round_trip() {
    use_round_trip(b"");
    use_round_trip(b"x");
    use_round_trip(b"xy");
    use_round_trip(&[0, 255, 128, 7, 9]);
}

fn use_round_trip(bytes: &[u8]) {
    let text = formula_scanner::encoding::encode_image_base64(bytes);
    assert_eq!(decode_image_base64(&text).unwrap(), bytes.to_vec());
}
