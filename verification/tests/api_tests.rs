use pilipili_strm::emby::{EmbyAPI, EmbyConfig};
use pilipili_strm::logger::{LogLevel, LogRotation, LoggerBuilder};
use pilipili_strm::network::{request_url, CurlBody, CurlPlugin, HttpMethod, NetworkTask};
use pilipili_strm::telegram::api::{TelegramAPI, TelegramConfig};
use pilipili_strm::telegram::markdown::MarkdownV2Builder;
use pilipili_strm::telegram::message::{PhotoInput, PhotoMessage, TextMessage};
use pilipili_strm::telegram::response::{Chat, MessageResult, TelegramResponse};

fn pairs(list: &[(&str, &str)]) -> Vec<(String, String)> {
    list.iter().map(|(a, b)| (a.to_string(), b.to_string())).collect()
}

fn telegram() -> TelegramConfig {
    TelegramConfig { bot_token: "123:abc".to_string(), chat_id: "42".to_string() }
}

#[test]
fn markdown_escapes_every_special_character() {
    assert_eq!(
        MarkdownV2Builder::escape("_*[]()~`>#+-=|{}.!"),
        "\\_\\*\\[\\]\\(\\)\\~\\`\\>\\#\\+\\-\\=\\|\\{\\}\\.\\!"
    );
    assert_eq!(MarkdownV2Builder::escape("plain text 123"), "plain text 123");
    assert_eq!(MarkdownV2Builder::escape("a\\b"), "a\\b");
    assert_eq!(MarkdownV2Builder::new().build(), "");
    assert_eq!(MarkdownV2Builder::new().text("1.5 > 1").text("!").build(), "1\\.5 \\> 1\\!");
}

#[test]
fn markdown_pieces_are_escaped_as_a_whole() {
    assert_eq!(MarkdownV2Builder::new().bold("hi").build(), "\\*hi\\*");
    assert_eq!(MarkdownV2Builder::new().italic("hi").build(), "\\_hi\\_");
    assert_eq!(MarkdownV2Builder::new().bold("a.b").build(), "\\*a\\\\.b\\*");
    assert_eq!(MarkdownV2Builder::new().link("t", "u").build(), "\\[t\\]\\(u\\)");
    let b = MarkdownV2Builder::new().text("x").bold("y");
    assert_eq!(b.to_text(), "x\\*y\\*");
}

#[test]
fn text_message_payload() {
    let m = TextMessage::new("Test message".to_string());
    assert_eq!(m.reply_markup, None);
    assert_eq!(m.to_text(), "text=Test message");
    assert_eq!(
        m.to_json_value("42".to_string()),
        pairs(&[("text", "Test message"), ("parse_mode", "MarkdownV2"), ("chat_id", "42")])
    );
    let m = m.with_reply_markup("{}".to_string());
    match m.into_task("7".to_string()) {
        NetworkTask::RequestJson(fields) => assert_eq!(
            fields,
            pairs(&[("text", "Test message"), ("reply_markup", "{}"), ("parse_mode", "MarkdownV2"), ("chat_id", "7")])
        ),
        other => panic!("unexpected task {:?}", other),
    }
}

#[test]
fn photo_message_payload() {
    let by_url = PhotoMessage::from_url("https://example.org/p.png".to_string()).with_caption("description of photo".to_string());
    assert_eq!(by_url.to_text(), "PhotoMessage(photo: [URL] https://example.org/p.png, caption: description of photo)");
    match by_url.into_task("42".to_string()) {
        NetworkTask::RequestMultipart(fields) => assert_eq!(
            fields,
            pairs(&[
                ("chat_id", "42"),
                ("parse_mode", "MarkdownV2"),
                ("caption", "description of photo"),
                ("photo", "https://example.org/p.png"),
            ])
        ),
        other => panic!("unexpected task {:?}", other),
    }
    let by_file = PhotoMessage::from_file("/tmp/p.png".to_string());
    assert_eq!(by_file.to_text(), "PhotoMessage(photo: [File] /tmp/p.png)");
    assert_eq!(PhotoInput::FilePath("/x".to_string()).to_text(), "[File] /x");
    match by_file.into_task("42".to_string()) {
        NetworkTask::RequestMultipartWithFiles(fields, files) => {
            assert_eq!(fields, pairs(&[("chat_id", "42"), ("parse_mode", "MarkdownV2")]));
            assert_eq!(files, pairs(&[("/tmp/p.png", "photo")]));
        }
        other => panic!("unexpected task {:?}", other),
    }
}

#[test]
fn telegram_endpoints() {
    let send = TelegramAPI::SendMessage(TextMessage::new("hi".to_string()));
    assert_eq!(send.base_url(&telegram()), "https://api.telegram.org/bot123:abc");
    assert_eq!(send.path(), "sendMessage");
    assert_eq!(send.method(), HttpMethod::Post);
    assert_eq!(send.get_chat_id(&telegram()), "42");
    assert!(matches!(send.task(&telegram()), NetworkTask::RequestJson(f) if f == pairs(&[("text", "hi"), ("parse_mode", "MarkdownV2"), ("chat_id", "42")])));
    let headers = send.headers();
    assert_eq!(headers.len(), 3);
    assert_eq!(headers[0], ("Content-Type".to_string(), "application/json".to_string()));
    assert_eq!(headers[1], ("Accept".to_string(), "application/json".to_string()));
    assert_eq!(headers[2].0, "user-agent");
    assert!(headers[2].1.starts_with("Mozilla/5.0"));
    let photo = TelegramAPI::SendPhoto(PhotoMessage::from_url("u".to_string()));
    assert_eq!(photo.path(), "sendPhoto");
    assert!(matches!(photo.clone().task(&telegram()), NetworkTask::RequestMultipart(_)));
    assert_eq!(request_url(&photo.base_url(&telegram()), &photo.path()), "https://api.telegram.org/bot123:abc/sendPhoto");
}

#[test]
fn responses_for_a_log() {
    let chat = Chat { id: -100123, first_name: None, username: None, chat_type: "channel".to_string() };
    assert_eq!(chat.display_name(), "channel -100123");
    assert_eq!(chat.to_text(), "ID: -100123, Type: channel");
    let chat = Chat { id: 5, first_name: Some("Ann".to_string()), username: Some("ann".to_string()), chat_type: "private".to_string() };
    assert_eq!(chat.display_name(), "Ann (@ann)");
    assert_eq!(chat.to_text(), "ID: 5, Type: private, Name: Ann, Username: @ann");
    let only_name = Chat { id: 0, first_name: Some("Ann".to_string()), username: None, chat_type: "private".to_string() };
    assert_eq!(only_name.display_name(), "Ann");
    let only_user = Chat { id: i64::MIN, first_name: None, username: Some("ann".to_string()), chat_type: "private".to_string() };
    assert_eq!(only_user.display_name(), "@ann");
    assert_eq!(only_user.to_text(), "ID: -9223372036854775808, Type: private, Username: @ann");
    let message = MessageResult { message_id: 9, chat, text: Some("hi".to_string()) };
    assert_eq!(message.to_text(), "MessageID: 9, Chat: ID: 5, Type: private, Name: Ann, Username: @ann, Text: hi");
    let ok = TelegramResponse { ok: true, result: Some(message), description: None };
    let shown = ok.result.as_ref().map(|m| m.to_text());
    assert_eq!(ok.to_text(&shown), "Status: OK, Result: MessageID: 9, Chat: ID: 5, Type: private, Name: Ann, Username: @ann, Text: hi");
    let failed: TelegramResponse<MessageResult> = TelegramResponse { ok: false, result: None, description: Some("Bad Request".to_string()) };
    assert_eq!(failed.to_text(&None), "Status: Failed, Description: Bad Request");
}

#[test]
fn emby_endpoints() {
    let config = EmbyConfig { base_url: "http://emby.local:8096".to_string(), api_key: "k".to_string() };
    let api = EmbyAPI::GetUser { user_id: "56ed750c57e14553ba2b3bd9c531e1a3".to_string() };
    assert_eq!(api.base_url(&config), "http://emby.local:8096");
    assert_eq!(api.path(), "emby/Users/56ed750c57e14553ba2b3bd9c531e1a3");
    assert_eq!(api.method(), HttpMethod::Get);
    assert!(matches!(api.task(&config), NetworkTask::RequestParameters(p) if p == pairs(&[("api_key", "k")])));
    let headers = api.headers(&config);
    assert_eq!(headers[0], ("accept".to_string(), "application/json".to_string()));
    assert_eq!(headers[1], ("origin".to_string(), "http://emby.local:8096".to_string()));
    assert_eq!(headers[2], ("referer".to_string(), "http://emby.local:8096/".to_string()));
    assert_eq!(headers[3].0, "user-agent");
}

#[test]
fn request_url_has_one_slash_between_base_and_path() {
    assert_eq!(request_url("http://h/", "/p"), "http://h/p");
    assert_eq!(request_url("http://h", "p"), "http://h/p");
    assert_eq!(request_url("http://h///", "//p/q/"), "http://h/p/q/");
    assert_eq!(request_url("", ""), "/");
}

#[test]
fn http_methods_are_upper_case() {
    assert_eq!(HttpMethod::Get.to_text(), "GET");
    assert_eq!(HttpMethod::Post.to_text(), "POST");
    assert_eq!(HttpMethod::Put.to_text(), "PUT");
    assert_eq!(HttpMethod::Delete.to_text(), "DELETE");
}

#[test]
fn requests_as_curl_commands() {
    let headers = pairs(&[("accept", "application/json"), ("x-note", "it's \"quoted\"")]);
    let body = Some(CurlBody::Text("{\"a\":'b'}".to_string()));
    assert_eq!(
        CurlPlugin::request_to_curl("POST", "http://h/p", &headers, &body),
        "curl -X POST 'http://h/p' -H \"accept: application/json\" -H \"x-note: it\\'s \\\"quoted\\\"\"  -d '{\\\"a\\\":\\'b\\'}'"
    );
    assert_eq!(CurlPlugin::request_to_curl("GET", "http://h/", &Vec::new(), &None), "curl -X GET 'http://h/' ");
    assert_eq!(
        CurlPlugin::request_to_curl("GET", "http://h/", &Vec::new(), &Some(CurlBody::Text(String::new()))),
        "curl -X GET 'http://h/' "
    );
    assert_eq!(
        CurlPlugin::request_to_curl("PUT", "u", &Vec::new(), &Some(CurlBody::Unknown)),
        "curl -X PUT 'u'  -d 'Unknown Content'"
    );
}

#[test]
fn binary_bodies_are_shown_in_hexadecimal() {
    assert_eq!(CurlPlugin::body_text(&CurlBody::Binary(vec![0, 15, 16, 255, 0xAB])), "Binary Data (\"00 0F 10 FF AB\")");
    assert_eq!(CurlPlugin::body_text(&CurlBody::Binary(Vec::new())), "Binary Data (\"\")");
    let long = CurlPlugin::body_text(&CurlBody::Binary(vec![1; 60]));
    assert_eq!(long.len(), "Binary Data (\"".len() + 50 * 2 + 49 + "\")".len());
    assert_eq!(CurlPlugin::on_request("curl"), "Sending request: curl");
    assert_eq!(CurlPlugin::on_response("200 OK"), "Received response: 200 OK");
    assert_eq!(CurlPlugin::on_error("timeout"), "Request occurred Error: timeout");
}

#[test]
fn logger_settings() {
    let b = LoggerBuilder::default();
    assert_eq!(b.max_level, LogLevel::Info);
    assert_eq!(b.directory, "logs");
    assert_eq!(b.file_name_prefix, "");
    assert_eq!(b.rolling, LogRotation::Daily);
    let b = b.with_level(LogLevel::Trace).with_directory("/var/log/app").with_file_prefix("app").with_rolling(LogRotation::Never);
    assert_eq!(b.max_level, LogLevel::Trace);
    assert_eq!(b.directory, "/var/log/app");
    assert_eq!(b.file_name_prefix, "app");
    assert_eq!(b.rolling, LogRotation::Never);
    assert_eq!(LogLevel::Error.to_text(), "Error");
    assert_eq!(LogLevel::Warn.to_text(), "Warn");
    assert_eq!(LogLevel::Info.to_text(), "Info");
    assert_eq!(LogLevel::Debug.to_text(), "Debug");
    assert_eq!(LogLevel::Trace.to_text(), "Trace");
    assert!(LogLevel::Error < LogLevel::Trace);
}
