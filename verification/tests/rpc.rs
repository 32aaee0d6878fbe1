use yap_core::rpc::{acknowledgement, config_params, required_string_param, rpc_method, RpcMethod};

#[test]
fn every_method_is_read_back_by_its_name() {
    let names = [
        ("config.save", RpcMethod::ConfigSave),
        ("history.get", RpcMethod::HistoryGet),
        ("history.remove", RpcMethod::HistoryRemove),
        ("history.clear", RpcMethod::HistoryClear),
        ("models.whisper.list", RpcMethod::ModelsList),
        ("models.whisper.search", RpcMethod::ModelsSearch),
        ("models.whisper.download", RpcMethod::ModelsDownload),
        ("models.whisper.delete", RpcMethod::ModelsDelete),
        ("models.whisper.reveal", RpcMethod::ModelsReveal),
        ("audio.list_devices", RpcMethod::AudioListDevices),
        ("runtime.start", RpcMethod::RuntimeStart),
        ("runtime.stop", RpcMethod::RuntimeStop),
    ];
    for (name, method) in names {
        assert_eq!(rpc_method(name), Ok(method));
    }
    assert_eq!(rpc_method("runtime.pause").unwrap_err(), "unknown method: runtime.pause");
    assert_eq!(acknowledgement(RpcMethod::ModelsDelete), Some("deleted"));
    assert_eq!(acknowledgement(RpcMethod::ModelsList), None);
}

#[test]
fn parameters_are_checked() {
    assert_eq!(required_string_param(false, None, "id").unwrap_err(), "missing params");
    assert_eq!(required_string_param(true, None, "id").unwrap_err(), "missing string param: id");
    assert_eq!(required_string_param(true, Some("x".to_string()), "id").unwrap(), "x");
    assert_eq!(config_params::<u8>(false, true, Ok(1)).unwrap_err(), "missing params");
    assert_eq!(config_params::<u8>(true, false, Ok(1)).unwrap_err(), "missing config param");
    assert_eq!(
        config_params::<u8>(true, true, Err("bad".to_string())).unwrap_err(),
        "invalid config params: bad"
    );
    assert_eq!(config_params::<u8>(true, true, Ok(7)).unwrap(), 7);
}
