use tool::gitemail::{join_emails, subject_prefix};
use tool::passgen::PassGen;
use tool::pdfcrop::cropped_name;
use tool::pdfembed::embedded_name;
use tool::plain_photos::photo_name;
use tool::setup::latest_download_url;
use tool::vp9::Vp9;
use tool::wifiqr::{AuthType, WifiQR};
use tool::Section;

#[test]
fn auth_type_name() {
    assert_eq!(AuthType::WPA2.as_str(), "WPA2");
}

#[test]
fn section_keeps_its_name() {
    assert_eq!(Section::new("Running tectonic").name, "Running tectonic");
}

#[test]
fn email_settings() {
    assert_eq!(subject_prefix("tool"), "PATCH tool");
    assert_eq!(join_emails(&vec![]), "");
    assert_eq!(join_emails(&vec!["a@x.org".to_string()]), "a@x.org");
    assert_eq!(
        join_emails(&vec!["a@x.org".to_string(), "b@y.org".to_string(), "c@z.org".to_string()]),
        "a@x.org,b@y.org,c@z.org"
    );
}

#[test]
fn pdf_output_names() {
    assert_eq!(cropped_name("paper", "pdf"), "crop_paper.pdf");
    assert_eq!(embedded_name("paper", "pdf"), "emb_paper.pdf");
}

#[test]
fn photo_names_are_zero_padded() {
    assert_eq!(photo_name("trip", 0, "jpg"), "trip_0000.jpg");
    assert_eq!(photo_name("trip", 7, "jpg"), "trip_0007.jpg");
    assert_eq!(photo_name("trip", 42, "png"), "trip_0042.png");
    assert_eq!(photo_name("trip", 999, "jpg"), "trip_0999.jpg");
    assert_eq!(photo_name("trip", 1000, "jpg"), "trip_1000.jpg");
    assert_eq!(photo_name("trip", 12345, "jpg"), "trip_12345.jpg");
}

#[test]
fn vp9_command() {
    let o = Vp9 { input: "in.mp4".to_string(), crf: 30, overwrite: false, output: "out".to_string() };
    assert_eq!(o.output_file(), "out.webm");
    assert!(o.refuses(true));
    assert!(!o.refuses(false));
    assert_eq!(
        o.encode_command(),
        "ffmpeg -i 'in.mp4' -c:v libvpx-vp9 -row-mt 1 -b:v 0 -crf 30 -pass 1 -an -f null /dev/null && \
ffmpeg -n -i 'in.mp4' -c:v libvpx-vp9 -row-mt 1 -b:v 0 -crf 30 -pass 2 -c:a libopus 'out.webm'"
    );
    let y = Vp9 { input: "a b.mkv".to_string(), crf: 0, overwrite: true, output: "x".to_string() };
    assert!(!y.refuses(true));
    assert!(y.encode_command().starts_with("ffmpeg -i 'a b.mkv' -c:v libvpx-vp9 -row-mt 1 -b:v 0 -crf 0 -pass 1"));
    assert!(y.encode_command().contains("&& ffmpeg -y -i 'a b.mkv'"));
}

#[test]
fn password_commands() {
    let p = PassGen { no_symbols: true, length: 16 };
    assert_eq!(p.command(), "LC_ALL=C tr -dc 'A-Za-z0-9' < /dev/urandom | head -c 16");
    let q = PassGen { no_symbols: false, length: 24 };
    assert_eq!(
        q.command(),
        r##"LC_ALL=C tr -dc 'A-Za-z0-9!"#$%&'\''()*+,-./:;<=>?@[\]^_`{|}~' < /dev/urandom | head -c 24"##
    );
}

#[test]
fn wifi_card_is_rendered() {
    let o = WifiQR {
        ssid: "HomeNet".to_string(),
        password: "hunter22".to_string(),
        authtype: AuthType::WPA2,
        location: "Kitchen".to_string(),
    };
    let src = o.card_source().unwrap();
    assert!(src.contains("WIFI:T:WPA2;S:HomeNet;P:hunter22;;"));
    assert!(src.contains("Kitchen"));
    assert!(!src.contains("{{"));
}

#[test]
fn geckodriver_download_url() {
    let listing = "{\n  \"name\": \"v0.34.0\",\n      \"browser_download_url\": \"https://x/geckodriver-v0.34.0-linux-aarch64.tar.gz\"\n      \"browser_download_url\": \"https://x/geckodriver-v0.34.0-linux64.tar.gz\"\n      \"browser_download_url\": \"https://x/geckodriver-v0.34.0-linux64.tar.gz.asc\"\n}";
    assert_eq!(
        latest_download_url(listing),
        Some("https://x/geckodriver-v0.34.0-linux64.tar.gz".to_string())
    );
    let crlf = "a\r\n\"browser_download_url\": \"u-linux64.tar.gz\"\r\n";
    assert_eq!(latest_download_url(crlf), Some("u-linux64.tar.gz".to_string()));
    assert_eq!(latest_download_url("no links here\n"), None);
    assert_eq!(latest_download_url(""), None);
}
