use orbitx_storage::json::JsonValue;
use orbitx_storage::utils::api_response::{ApiResponse, EmptyData};
use orbitx_storage::utils::error::{app_error, to_tauri_result, ToTauriResult, Validator};
use orbitx_storage::utils::error_handler::{ErrorHandler, OptionToApiResponse, TauriCommandWrapper};
use orbitx_storage::utils::i18n::I18nManager;
use orbitx_storage::utils::language::{supported_languages, Language, LanguageManager};
use orbitx_storage::utils::migration::{
    ast_error_with_context, context_error_with_context, convert_ast_error, convert_context_error,
    convert_llm_error, convert_terminal_error, llm_error_with_context, terminal_error_with_context,
    AstError, ContextError, LLMError, TerminalError,
};
use orbitx_storage::terminal::types::PaneId;

fn packs() -> (Vec<(String, JsonValue)>, Vec<(String, JsonValue)>) {
    let zh = vec![(
        "common".to_string(),
        JsonValue::Object(vec![
            ("success".to_string(), JsonValue::String("成功".to_string())),
            ("operation_failed".to_string(), JsonValue::String("操作失败".to_string())),
            ("not_found".to_string(), JsonValue::String("未找到".to_string())),
            ("only_zh".to_string(), JsonValue::String("仅中文".to_string())),
            ("greet".to_string(), JsonValue::String("你好 {name}".to_string())),
        ]),
    )];
    let en = vec![(
        "common".to_string(),
        JsonValue::Object(vec![
            ("success".to_string(), JsonValue::String("Success".to_string())),
            ("operation_failed".to_string(), JsonValue::String("Operation failed".to_string())),
            ("greet".to_string(), JsonValue::String("Hello {name}".to_string())),
            ("count".to_string(), JsonValue::Number(3)),
        ]),
    )];
    (zh, en)
}

fn loaded() -> I18nManager {
    let mut m = I18nManager::new();
    let (zh, en) = packs();
    m.initialize(zh, en).unwrap();
    m
}

#[test]
fn test_interpolate_params() {
    let text = "Hello {name}, you have {count} messages";
    let params = vec![
        ("name".to_string(), "Alice".to_string()),
        ("count".to_string(), "5".to_string()),
    ];
    let result = I18nManager::interpolate_params(text, Some(&params));
    assert_eq!(result, "Hello Alice, you have 5 messages");
}

#[test]
fn test_nested_value() {
    let messages = vec![(
        "common".to_string(),
        JsonValue::Object(vec![("success".to_string(), JsonValue::String("成功".to_string()))]),
    )];
    let result = I18nManager::get_nested_value(&messages, "common.success");
    assert_eq!(result, Some("成功".to_string()));
}

#[test]
fn test_macro() {
    let manager = I18nManager::new();
    assert_eq!(manager.get_text(Language::ZhCN, "common.missing", None), "common.missing");
}

#[test]
fn texts_fall_back_to_chinese_then_key() {
    let m = loaded();
    assert_eq!(m.get_text(Language::EnUS, "common.success", None), "Success");
    assert_eq!(m.get_text(Language::ZhCN, "common.success", None), "成功");
    assert_eq!(m.get_text(Language::EnUS, "common.only_zh", None), "仅中文");
    assert_eq!(m.get_text(Language::EnUS, "nope.key", None), "nope.key");
    assert_eq!(m.get_text(Language::EnUS, "common.count", None), "common.count");
    assert_eq!(m.get_text(Language::EnUS, "common", None), "common");
    let params = vec![("name".to_string(), "Ann".to_string())];
    assert_eq!(m.get_text(Language::EnUS, "common.greet", Some(&params)), "Hello Ann");
    assert!(m.has_key(Language::EnUS, "common.only_zh"));
    assert!(!m.has_key(Language::EnUS, "common.nothing"));
    assert_eq!(m.get_loaded_languages().len(), 2);
}

#[test]
fn messages_can_be_added_and_reloaded() {
    let mut m = loaded();
    m.add_message("en-US", "extra", "Extra").unwrap();
    m.add_message("fr-FR", "bonjour", "Bonjour").unwrap();
    assert_eq!(m.get_text_for_language("en-US", "extra"), Some("Extra".to_string()));
    assert_eq!(m.get_text_for_language("fr-FR", "bonjour"), Some("Bonjour".to_string()));
    assert_eq!(m.get_loaded_languages().len(), 3);
    let (zh, en) = packs();
    m.reload(zh, en).unwrap();
    assert_eq!(m.get_text_for_language("en-US", "extra"), None);
    assert_eq!(m.get_loaded_languages().len(), 2);
}

#[test]
fn test_language_from_str() {
    assert_eq!(Language::from_tag_lossy("zh-CN"), Language::ZhCN);
    assert_eq!(Language::from_tag_lossy("zh"), Language::ZhCN);
    assert_eq!(Language::from_tag_lossy("chinese"), Language::ZhCN);
    assert_eq!(Language::from_tag_lossy("中文"), Language::ZhCN);

    assert_eq!(Language::from_tag_lossy("en-US"), Language::EnUS);
    assert_eq!(Language::from_tag_lossy("en"), Language::EnUS);
    assert_eq!(Language::from_tag_lossy("english"), Language::EnUS);

    assert_eq!(Language::from_tag_lossy("unknown"), Language::ZhCN);
}

#[test]
fn test_language_to_string() {
    assert_eq!(Language::ZhCN.tag(), "zh-CN");
    assert_eq!(Language::EnUS.tag(), "en-US");
}

#[test]
fn test_language_manager() {
    let mut manager = LanguageManager::new();
    assert!(manager.set_language(Language::EnUS));
    assert_eq!(manager.get_language(), Language::EnUS);
    assert!(manager.is_english());
    assert!(!manager.is_chinese());

    assert!(manager.set_language(Language::ZhCN));
    assert_eq!(manager.get_language(), Language::ZhCN);
    assert!(manager.is_chinese());
    assert!(!manager.is_english());
}

#[test]
fn test_language_manager_from_str() {
    let mut manager = LanguageManager::new();
    assert!(manager.set_language_from_tag_lossy("en-US"));
    assert_eq!(manager.get_language(), Language::EnUS);

    assert!(manager.set_language_from_tag_lossy("zh-CN"));
    assert_eq!(manager.get_language(), Language::ZhCN);
}

#[test]
fn test_language_all() {
    let langs = Language::all();
    assert_eq!(langs.len(), 2);
    assert!(langs.contains(&Language::ZhCN));
    assert!(langs.contains(&Language::EnUS));
}

#[test]
fn language_names_and_tags_read_back() {
    for lang in Language::all() {
        assert_eq!(Language::from_tag_lossy(lang.tag()), lang);
    }
    assert_eq!(Language::from_tag_lossy("ENGLISH"), Language::EnUS);
    assert_eq!(Language::from_tag_lossy("英文"), Language::EnUS);
    assert_eq!(Language::ZhCN.display_name(), "简体中文");
    assert_eq!(Language::default(), Language::ZhCN);
    let infos = supported_languages();
    assert_eq!(infos[1].code, "en-US");
    assert_eq!(infos[1].name, "English");
    assert_eq!(LanguageManager::default().get_language_string(), "zh-CN");
}

#[test]
fn test_terminal_error_conversion() {
    let terminal_err = TerminalError::config("测试错误");
    let anyhow_err = convert_terminal_error(terminal_err);
    assert!(anyhow_err.to_string().contains("配置错误: 测试错误"));
}

#[test]
fn test_context_error_conversion() {
    let context_err = ContextError::PaneNotFound { pane_id: PaneId::new(123) };
    let anyhow_err = convert_context_error(context_err);
    assert!(anyhow_err.to_string().contains("面板不存在: 123"));
}

#[test]
fn test_llm_error_conversion() {
    let llm_err = LLMError::ModelNotFound("gpt-4".to_string());
    let anyhow_err = convert_llm_error(llm_err);
    assert!(anyhow_err.to_string().contains("LLM模型未找到: gpt-4"));
}

#[test]
fn test_ast_error_conversion() {
    let ast_err = AstError::FileNotFound("/path/to/file.rs".to_string());
    let anyhow_err = convert_ast_error(ast_err);
    assert!(anyhow_err.to_string().contains("AST解析：文件不存在: /path/to/file.rs"));
}

#[test]
fn test_automatic_conversion() {
    let terminal_err = TerminalError::config("自动转换测试");
    let anyhow_err: anyhow::Error = convert_terminal_error(terminal_err);
    assert!(anyhow_err.to_string().contains("配置错误: 自动转换测试"));
}

#[test]
fn test_error_with_context() {
    let terminal_err = TerminalError::config("测试错误");
    let anyhow_err = terminal_error_with_context(terminal_err, "执行配置加载");
    assert!(anyhow_err.to_string().contains("执行配置加载"));
}

#[test]
fn other_errors_under_context() {
    let internal = ContextError::Internal { source: anyhow::Error::msg("inner") };
    assert_eq!(convert_context_error(internal).to_string(), "inner");
    let e = context_error_with_context(ContextError::NoActivePane, "查询");
    assert_eq!(e.to_string(), "查询");
    assert_eq!(format!("{:#}", e), "查询: 没有活跃的终端面板");
    let e = llm_error_with_context(LLMError::Provider("x".to_string()), "调用");
    assert_eq!(format!("{:#}", e), "调用: LLM提供商错误: x");
    let e = ast_error_with_context(AstError::ParseError("y".to_string()), "解析");
    assert_eq!(format!("{:#}", e), "解析: AST解析：解析错误: y");
    assert_eq!(ContextError::PaneNotFound { pane_id: PaneId::new(7) }.message(), Some("面板不存在: 7".to_string()));
}

#[test]
fn test_result_wrapper() {
    let m = loaded();
    let success_result: Result<i32, &str> = Ok(42);
    let error_result: Result<i32, &str> = Err("test error");
    let ok = success_result.to_api_response(&m, Language::EnUS).unwrap();
    assert_eq!(ok.code, 200);
    assert_eq!(ok.data, Some(42));
    let err = error_result.to_api_response(&m, Language::EnUS).unwrap();
    assert_eq!(err.code, 500);
    assert_eq!(err.message, Some("Operation failed".to_string()));
    assert_eq!(err.data, None);
}

#[test]
fn test_option_wrapper() {
    let m = loaded();
    let some_value: Option<i32> = Some(42);
    let none_value: Option<i32> = None;
    assert_eq!(some_value.to_api_response(&m, Language::ZhCN).unwrap().data, Some(42));
    let none = none_value.to_api_response(&m, Language::ZhCN).unwrap();
    assert_eq!(none.code, 500);
    assert_eq!(none.message, Some("未找到".to_string()));
}

#[test]
fn error_handler_answers() {
    let m = loaded();
    let params = vec![("name".to_string(), "Bo".to_string())];
    let r: ApiResponse<i32> =
        ErrorHandler::create_error_with_params(&m, Language::ZhCN, "common.greet", params).unwrap();
    assert_eq!(r.message, Some("你好 Bo".to_string()));
    let r: ApiResponse<i32> = ErrorHandler::create_error(&m, Language::EnUS, "x.y").unwrap();
    assert_eq!(r.message, Some("x.y".to_string()));
    assert_eq!(ErrorHandler::create_success(5).unwrap().data, Some(5));
    assert_eq!(ErrorHandler::create_empty_success().unwrap().code, 200);
    let e: Result<(), String> = Err("boom".to_string());
    let r = e.to_api_response_with_error(&m, Language::EnUS, "common.success").unwrap();
    assert_eq!(r.message, Some("Success".to_string()));
    let none: Option<u8> = None;
    let r = none.to_api_response_or_error(&m, Language::EnUS, "common.success").unwrap();
    assert_eq!(r.message, Some("Success".to_string()));
    let ok = ApiResponse::ok_with_message(EmptyData, "done".to_string());
    assert_eq!(ok.message, Some("done".to_string()));
}

#[test]
fn validator_messages() {
    assert!(Validator::validate_id(1, "task").is_ok());
    assert_eq!(Validator::validate_id(0, "task"), Err("Invalid task: 0".to_string()));
    assert_eq!(Validator::validate_id(-12, "id"), Err("Invalid id: -12".to_string()));
    assert!(Validator::validate_not_empty(" a ", "name").is_ok());
    assert_eq!(
        Validator::validate_not_empty(" \t", "name"),
        Err("name cannot be empty".to_string())
    );
    assert_eq!(to_tauri_result::<i32>(Ok(3)), Ok(3));
    assert_eq!(to_tauri_result::<i32>(Err(app_error("bad".to_string()))), Err("bad".to_string()));
    let r: Result<u8, anyhow::Error> = Err(app_error("worse".to_string()));
    assert_eq!(r.to_tauri(), Err("worse".to_string()));
}

#[test]
fn context_wraps_the_converted_error() {
    let e = terminal_error_with_context(TerminalError::config("测试错误"), "执行配置加载");
    let texts: Vec<String> = e.chain().map(|c| c.to_string()).collect();
    assert_eq!(texts[0], "执行配置加载");
    assert_eq!(texts[1], "配置错误: 测试错误");
    let e = context_error_with_context(
        ContextError::Internal { source: anyhow::Error::msg("inner") },
        "查询",
    );
    assert_eq!(e.chain().nth(1).unwrap().to_string(), "inner");
    assert_eq!(
        orbitx_storage::utils::error::app_error_with_context("读取失败", "磁盘").to_string(),
        "读取失败: 磁盘"
    );
}
