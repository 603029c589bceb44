use print_guardian::ImageFetcher;

fn sample_png() -> Vec<u8> {
    let picture = image::RgbImage::from_fn(4, 3, |x, y| image::Rgb([(x * 60) as u8, (y * 80) as u8, 7]));
    let mut bytes = Vec::new();
    image::DynamicImage::ImageRgb8(picture)
        .write_to(&mut std::io::Cursor::new(&mut bytes), image::ImageFormat::Png)
        .unwrap();
    bytes
}

#[test]
fn test_image_fetcher_basic_methods() {
    let urls = vec!["https://fastly.picsum.photos/id/866/200/300.jpg?hmac=rcadCENKh4rD6MAp6V_ma-AyWv641M4iiOpe1RyFHeI".to_string()];
    let mut fetcher = ImageFetcher::new(urls.clone(), 3, 1);
    assert_eq!(fetcher.get_image_urls(), &urls);
    assert_eq!(fetcher.get_max_retries(), 3);
    assert_eq!(fetcher.get_retry_count(), 0);
    fetcher.reset_state();
    assert_eq!(fetcher.get_retry_count(), 0);
    assert!(!fetcher.is_disconnect_alert_sent());
}

#[test]
fn test_image_fetcher_transformations() {
    let image_bytes = sample_png();
    let flipped =
        ImageFetcher::apply_image_transformations(&image_bytes, true).expect("Flip failed");
    assert!(!flipped.is_empty());
    let not_flipped =
        ImageFetcher::apply_image_transformations(&image_bytes, false).expect("No flip failed");
    assert_eq!(not_flipped, image_bytes);
}

#[test]
fn test_printer_service_url_and_mock() {
    let url = "http://localhost:7125".to_string();
    let printer = print_guardian::PrinterService::new(url.clone());
    let status_url = format!("{}/printer/objects/query?webhooks&print_stats", url);
    assert_eq!(printer.api_url, url);
    assert_eq!(
        printer.endpoint(print_guardian::printer::PrinterAction::QueryStatus),
        status_url
    );
    // No server answers: every request ends in an error.
    let pause_result = printer.pause_print(None);
    assert!(pause_result.is_err());
    let resume_result = printer.resume_print(None);
    assert!(resume_result.is_err());
    let cancel_result = printer.cancel_print(None);
    assert!(cancel_result.is_err());
}
