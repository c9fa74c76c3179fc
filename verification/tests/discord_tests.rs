use systemd_webhook_notifier::args::{service_name_from_args, Commands, DiscordArgs};
use systemd_webhook_notifier::error::NotifierError;
use systemd_webhook_notifier::systemd_logs::ServiceInfo;
use systemd_webhook_notifier::webhooks::discord::{
    build_webhook, discord_webhook, embed_fields, environment_lines_of, NOT_AVAILABLE,
};
use systemd_webhook_notifier::webhooks::discord_structs::{
    EmbedAuthor, EmbedField, EmbedFooter, EmbedImage, Webhook, WebhookEmbed,
};
use systemd_webhook_notifier::webhooks::utils::{response_outcome, NOTIFIER_NAME, NOTIFIER_REPO};

fn sample_info() -> ServiceInfo {
    let mut info = ServiceInfo::default();
    info.name = "backup.service".to_string();
    info.description = "Nightly backup".to_string();
    info.fragment_path = "/etc/systemd/system/backup.service".to_string();
    info.result = "exit-code".to_string();
    info.main_status = -2;
    info.start_timestamp = "start".to_string();
    info.exit_timestamp = "exit".to_string();
    info.invocation_id = "abc".to_string();
    info
}

#[test]
fn constructors() {
    assert_eq!(EmbedImage::new("u").url, "u");
    let a = EmbedAuthor::new("n");
    assert_eq!((a.name.as_str(), a.url, a.icon_url), ("n", None, None));
    let a = EmbedAuthor::new_with_url("n", "u");
    assert_eq!((a.name.as_str(), a.url.as_deref(), a.icon_url), ("n", Some("u"), None));
    let a = EmbedAuthor::new_with_icon("n", "i");
    assert_eq!((a.name.as_str(), a.url, a.icon_url.as_deref()), ("n", None, Some("i")));
    let a = EmbedAuthor::new_with_url_and_icon("n", "u", "i");
    assert_eq!(
        (a.name.as_str(), a.url.as_deref(), a.icon_url.as_deref()),
        ("n", Some("u"), Some("i"))
    );
    let f = EmbedFooter::new("t");
    assert_eq!((f.text.as_str(), f.icon_url), ("t", None));
    let f = EmbedFooter::new_with_icon("t", "i");
    assert_eq!((f.text.as_str(), f.icon_url.as_deref()), ("t", Some("i")));
    let f = EmbedField::new("k", "v");
    assert_eq!((f.name.as_str(), f.value.as_str(), f.inline), ("k", "v", false));
    let f = EmbedField::new_inline("k", "v");
    assert_eq!((f.name.as_str(), f.value.as_str(), f.inline), ("k", "v", true));
}

#[test]
fn defaults_are_empty() {
    let w = Webhook::default();
    assert!(w.content.is_none() && w.embeds.is_empty());
    let e = WebhookEmbed::default();
    assert!(e.title.is_none() && e.fields.is_none() && e.color.is_none());
}

#[test]
fn embed_new_at() {
    let e = WebhookEmbed::new_at(Some("thumb"), Some(7), "2024-01-01T00:00:00+00:00".to_string());
    assert_eq!(e.color, Some(7));
    assert_eq!(e.thumbnail, Some(EmbedImage::new("thumb")));
    assert_eq!(e.timestamp.as_deref(), Some("2024-01-01T00:00:00+00:00"));
    assert_eq!(e.author, Some(EmbedAuthor::new_with_url(NOTIFIER_NAME, NOTIFIER_REPO)));
    assert_eq!(e.footer, Some(EmbedFooter::new(NOTIFIER_NAME)));
    assert!(e.title.is_none() && e.description.is_none() && e.url.is_none());
    assert!(e.image.is_none() && e.fields.is_none());
    let e = WebhookEmbed::new_at(None, None, String::new());
    assert!(e.thumbnail.is_none() && e.color.is_none());
}

#[test]
fn embed_new_is_stamped_now() {
    let e = WebhookEmbed::new(None, 0xff0000);
    assert_eq!(e.color, Some(0xff0000));
    let stamp = e.timestamp.unwrap();
    assert!(chrono::DateTime::parse_from_rfc3339(&stamp).is_ok());
    assert!(stamp.ends_with("+00:00"));
}

#[test]
fn fields_of_a_report() {
    let info = sample_info();
    let fields = embed_fields(&info, "1.500s", "2.00 MB");
    let got: Vec<(&str, &str, bool)> =
        fields.iter().map(|f| (f.name.as_str(), f.value.as_str(), f.inline)).collect();
    assert_eq!(
        got,
        vec![
            ("Service File", "/etc/systemd/system/backup.service", false),
            ("Result", "exit-code", true),
            ("Exit Code", "-2", true),
            ("Started", "start", true),
            ("Exited", "exit", true),
            ("User", NOT_AVAILABLE, true),
            ("Triggered By", "N/A", true),
            ("CPU Time", "N/A", true),
            ("Memory Peak", "N/A", true),
            ("Environment Variables", "", false),
            ("Invocation ID", "abc", false),
        ]
    );
    assert_eq!(fields[2].value.parse::<i64>().unwrap(), info.main_status);
}

#[test]
fn fields_with_values_present() {
    let mut info = sample_info();
    info.user = "bob".to_string();
    info.triggered_by = "backup.timer".to_string();
    info.cpu_usage_ns = Some(1_500_000_000);
    info.memory_peak = Some(2_000_000);
    info.environment_str = "A=1 B=2".to_string();
    info.environment_vals = vec![
        ("A".to_string(), "1".to_string()),
        ("B".to_string(), "2".to_string()),
    ];
    let fields = embed_fields(&info, "1.500s", "2 MB");
    assert_eq!(fields[5].value, "bob");
    assert_eq!(fields[6].value, "backup.timer");
    assert_eq!(fields[7].value, "1.500s");
    assert_eq!(fields[8].value, "2 MB");
    assert_eq!(fields[9].value, "* A=1\n* B=2");
}

#[test]
fn raw_environment_without_pairs() {
    let mut info = sample_info();
    info.environment_str = "\"unbalanced".to_string();
    let fields = embed_fields(&info, "", "");
    assert_eq!(fields[9].value, "\"unbalanced");
}

#[test]
fn environment_lines() {
    assert_eq!(environment_lines_of(&vec![]), "");
    assert_eq!(
        environment_lines_of(&vec![("K".to_string(), "v w".to_string())]),
        "* K=v w"
    );
}

#[test]
fn webhook_report() {
    let mut info = sample_info();
    info.memory_peak = Some(1_500_000);
    let w = build_webhook(Some("t"), Some(3), &info, "0.001s", "stamp".to_string());
    assert!(w.content.is_none());
    assert_eq!(w.embeds.len(), 1);
    let e = &w.embeds[0];
    assert_eq!(e.title.as_deref(), Some("backup.service"));
    assert_eq!(e.description.as_deref(), Some("Nightly backup"));
    assert_eq!(e.timestamp.as_deref(), Some("stamp"));
    assert_eq!(e.color, Some(3));
    let fields = e.fields.as_ref().unwrap();
    assert_eq!(fields.len(), 11);
    assert_eq!(fields[8].value, humansize::format_size(1_500_000u64, humansize::DECIMAL));
    assert_eq!(fields[8].value, "1.50 MB");
}

#[test]
fn discord_webhook_from_args() {
    let args = DiscordArgs {
        thumbnail: Some("https://example.com/t.png".to_string()),
        color: None,
        webhook_url: "https://example.com/hook".to_string(),
    };
    let w = discord_webhook(&args, &sample_info(), "N/A");
    let e = &w.embeds[0];
    assert_eq!(e.thumbnail, Some(EmbedImage::new("https://example.com/t.png")));
    assert_eq!(e.color, None);
    assert!(e.timestamp.as_deref().unwrap().ends_with("+00:00"));
    let c = Commands::Discord(args.clone());
    assert_eq!(c, Commands::Discord(args));
}

#[test]
fn webhook_answers() {
    assert_eq!(response_outcome(200, String::new()), Ok(()));
    assert_eq!(response_outcome(204, String::new()), Ok(()));
    assert_eq!(response_outcome(299, "x".to_string()), Ok(()));
    assert_eq!(
        response_outcome(404, "unknown webhook".to_string()),
        Err(NotifierError::WebhookRejected { status: 404, body: "unknown webhook".to_string() })
    );
    assert_eq!(
        response_outcome(199, String::new()),
        Err(NotifierError::WebhookRejected { status: 199, body: String::new() })
    );
}

#[test]
fn service_name_checks() {
    assert_eq!(service_name_from_args(None), Err(NotifierError::MissingServiceName));
    assert_eq!(
        service_name_from_args(Some(" \t".to_string())),
        Err(NotifierError::MissingServiceName)
    );
    assert_eq!(service_name_from_args(Some("nginx".to_string())), Ok("nginx".to_string()));
    assert_eq!(service_name_from_args(Some(" nginx ".to_string())), Ok(" nginx ".to_string()));
}
