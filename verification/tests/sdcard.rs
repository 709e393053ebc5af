use web_sw_cor24_x_tinyc::sdcard::{default_sd_image, format_size};

fn float_format_size(bytes: usize) -> String {
    const KB: usize = 1024;
    const MB: usize = KB * 1024;
    if bytes >= MB {
        format!("{:.1} MB", bytes as f64 / MB as f64)
    } else if bytes >= KB {
        format!("{:.1} KB", bytes as f64 / KB as f64)
    } else {
        format!("{bytes} B")
    }
}

#[test]
fn format_size_matches_float_formatting() {
    let mut samples: Vec<usize> = Vec::new();
    for b in 0..5000usize {
        samples.push(b);
    }
    for k in 1..3000usize {
        samples.push(k * 512);
        samples.push(k * 512 + 1);
        samples.push(k * 512 - 1);
        samples.push(k * 52429);
        samples.push(1048576 * k / 8);
        samples.push(1048576 * k / 20);
    }
    samples.push(usize::MAX);
    samples.push(usize::MAX - 1);
    samples.push((1usize << 53) + 1);
    samples.push((1usize << 53) + 3);
    samples.push((1usize << 60) + (1usize << 7) + 5);
    for b in samples {
        assert_eq!(format_size(b), float_format_size(b), "bytes = {b}");
    }
}

#[test]
fn format_size_examples() {
    assert_eq!(format_size(0), "0 B");
    assert_eq!(format_size(1023), "1023 B");
    assert_eq!(format_size(1024), "1.0 KB");
    assert_eq!(format_size(4096), "4.0 KB");
    assert_eq!(format_size(1536), "1.5 KB");
    assert_eq!(format_size(1048575), "1024.0 KB");
    assert_eq!(format_size(1048576), "1.0 MB");
    assert_eq!(format_size(1572864), "1.5 MB");
}

#[test]
fn default_image_pattern() {
    let img = default_sd_image();
    assert_eq!(img.len(), 4096);
    for i in 0..16 {
        assert_eq!(img[i], i as u8);
    }
    assert_eq!(img[255], 0xFF);
    assert_eq!(img[256], 0xFF);
    assert_eq!(img[511], 0xFF);
    assert_eq!(img[512], 0x10);
    assert_eq!(img[512 + 255], 0x0F);
    assert_eq!(img[7 * 512], 0x70);
    assert_eq!(img[4095], 0xFF);
}

use web_sw_cor24_x_tinyc::sdcard::{sd_caption, sd_source_label, SdCard};

#[test]
fn source_labels() {
    assert_eq!(sd_source_label(false, Some("x.img")), "default test image");
    assert_eq!(sd_source_label(true, Some("x.img")), "x.img");
    assert_eq!(sd_source_label(true, None), "uploaded");
    assert_eq!(sd_caption(4096, false, None), "4.0 KB — default test image");
}

#[test]
fn card_flow() {
    let mut card = SdCard::new();
    assert!(!card.user_uploaded());
    assert_eq!(card.image_for_run(), default_sd_image());
    assert_eq!(card.size(), 4096);
    assert_eq!(card.caption(), "4.0 KB — default test image");
    card.upload(vec![1, 2, 3], "disk.img".to_string());
    assert!(card.user_uploaded());
    assert_eq!(card.image_for_run(), vec![1, 2, 3]);
    assert_eq!(card.image_for_run(), vec![1, 2, 3]);
    assert_eq!(card.caption(), "3 B — disk.img");
    card.reset();
    assert_eq!(card.image_for_run(), default_sd_image());
    assert_eq!(card.caption(), "4.0 KB — default test image");
    card.restore(vec![0; 2 * 1048576]);
    assert_eq!(card.caption(), "2.0 MB — uploaded");
}
