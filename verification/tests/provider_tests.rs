use dataprism_core::Provider;
use dataprism_core::classify;
use dataprism_core::detect_provider;
use dataprism_core::provider::contains_substring_ci;

#[test]
fn classify_s3_and_unknown_scenario() {
    assert_eq!(classify("https://mybucket.s3.amazonaws.com/key"), Provider::AwsS3);
    assert_eq!(detect_provider("https://mybucket.s3.amazonaws.com/key"), "aws-s3");
    assert_eq!(classify("https://example.com/file"), Provider::Unknown);
    assert_eq!(detect_provider("https://example.com/file"), "unknown");
}

#[test]
fn classify_each_provider() {
    assert_eq!(detect_provider("https://bucket.s3.us-east-1.amazonaws.com/obj"), "aws-s3");
    assert_eq!(detect_provider("https://pub-1234.r2.dev/obj"), "cloudflare-r2");
    assert_eq!(
        detect_provider("https://account.r2.cloudflarestorage.com/bucket/obj"),
        "cloudflare-r2"
    );
    assert_eq!(detect_provider("https://storage.googleapis.com/bucket/obj"), "google-cloud-storage");
    assert_eq!(
        detect_provider("https://storage.cloud.google.com/bucket/obj"),
        "google-cloud-storage"
    );
    assert_eq!(
        detect_provider("https://account.blob.core.windows.net/container/obj"),
        "azure-blob"
    );
}

#[test]
fn classify_rule_order_when_multiple_match() {
    // contains both "s3." and "r2.dev": the earlier rule wins
    assert_eq!(classify("https://s3.example.r2.dev/obj"), Provider::AwsS3);
    // contains both "r2.dev" and "googleapis.com": Cloudflare comes first
    assert_eq!(classify("https://r2.dev/googleapis.com"), Provider::CloudflareR2);
    // contains both "googleapis.com" and "blob.core.windows.net"
    assert_eq!(
        classify("https://googleapis.com/blob.core.windows.net"),
        Provider::GoogleCloudStorage
    );
}

#[test]
fn classify_is_case_insensitive() {
    assert_eq!(classify("HTTPS://MYBUCKET.S3.AMAZONAWS.COM/KEY"), Provider::AwsS3);
    assert_eq!(classify("https://Account.Blob.Core.Windows.Net/c/o"), Provider::AzureBlob);
    assert_eq!(classify("https://PUB.R2.DEV/x"), Provider::CloudflareR2);
}

#[test]
fn classify_is_deterministic() {
    let url = "https://storage.googleapis.com/bucket/obj";
    assert_eq!(classify(url), classify(url));
}

#[test]
fn substring_match_edges() {
    assert!(contains_substring_ci("amazonaws.com", "amazonaws.com"));
    assert!(contains_substring_ci("xamazonaws.comx", "AMAZONAWS.COM"));
    assert!(!contains_substring_ci("amazonaws.co", "amazonaws.com"));
    assert!(!contains_substring_ci("", "s3."));
    assert!(contains_substring_ci("anything", ""));
}

#[test]
fn provider_tags() {
    assert_eq!(Provider::AwsS3.tag(), "aws-s3");
    assert_eq!(Provider::CloudflareR2.tag(), "cloudflare-r2");
    assert_eq!(Provider::GoogleCloudStorage.tag(), "google-cloud-storage");
    assert_eq!(Provider::AzureBlob.tag(), "azure-blob");
    assert_eq!(Provider::Unknown.tag(), "unknown");
}
