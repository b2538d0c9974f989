use inexor_rgf::builder::LifecyclePhase;
use inexor_rgf::builder::OptionOption;
use inexor_rgf::builder::RuntimeBuilder;
use inexor_rgf::json::Json;
use inexor_rgf::json::JsonNumber;
use inexor_rgf::shutdown::create_shutdown_state;
use inexor_rgf::shutdown::ShutdownManagerImpl;
use inexor_rgf::shutdown::ShutdownRequest;

#[test]
fn builder_sets_the_given_values_only() {
    let runtime = RuntimeBuilder::new()
        .instance_config(OptionOption::of_str("config/instance.toml"))
        .plugins_config(OptionOption(None))
        .ignore_config_files()
        .instance_name(OptionOption::of_str("Test Runtime Builder Get"))
        .instance_description(OptionOption::from(None))
        .hostname(OptionOption::from("localhost"))
        .port(OptionOption::from(2000u16))
        .secure(OptionOption::from(Some(true)))
        .shutdown_timeout(OptionOption::from(None::<u64>))
        .workers(OptionOption::from(4usize))
        .default_context_path(OptionOption::of_str("/"))
        .disable_all_plugins(OptionOption::from(true))
        .disabled_plugins(OptionOption::from(vec!["a".to_string(), "b".to_string()]))
        .disable_hot_deploy(OptionOption::from(false))
        .get();
    let c = &runtime.config;
    assert_eq!(Some("config/instance.toml".to_string()), c.instance_config_location);
    assert_eq!(None, c.plugins_config_location);
    assert_eq!(None, c.graphql_server_config_location);
    assert_eq!(Some("Test Runtime Builder Get".to_string()), c.instance_name);
    assert_eq!(None, c.instance_description);
    assert_eq!(Some("localhost".to_string()), c.hostname);
    assert_eq!(Some(2000), c.port);
    assert_eq!(Some(true), c.secure);
    assert_eq!(None, c.shutdown_timeout);
    assert_eq!(Some(4), c.workers);
    assert_eq!(Some("/".to_string()), c.default_context_path);
    assert_eq!(Some(true), c.disable_all_plugins);
    assert_eq!(Some(vec!["a".to_string(), "b".to_string()]), c.disabled_plugins);
    assert_eq!(Some(false), c.disable_hot_deploy);
    assert_eq!(LifecyclePhase::NotRunning, runtime.phase);
}

#[test]
fn the_last_value_wins() {
    let runtime = RuntimeBuilder::new()
        .ignore_config_files()
        .port(OptionOption::from(1u16))
        .port(OptionOption::from(2u16))
        .port(OptionOption(None))
        .get();
    assert_eq!(Some(2), runtime.config.port);
}

#[test]
fn pick_free_port_sets_a_port() {
    let runtime = RuntimeBuilder::new().ignore_config_files().pick_free_port().get();
    assert!(runtime.config.port.is_some());
}

#[test]
fn lifecycle_goes_through_its_phases() {
    let builder = RuntimeBuilder::new().ignore_config_files().disable_all_plugins(OptionOption::from(true)).init();
    let ready = builder.post_init();
    assert_eq!(LifecyclePhase::Ready, ready.get().phase);

    let ready = RuntimeBuilder::new().ignore_config_files().init().post_init();
    let ready = ready.request_shutdown();
    let finished = ready.run();
    let runtime = finished.pre_shutdown().shutdown().get();
    assert_eq!(LifecyclePhase::Shutdown, runtime.phase);
    assert!(runtime.shutdown_manager.is_shutdown());

    let runtime = RuntimeBuilder::new().config_files_loaded().request_shutdown().block_on().get();
    assert_eq!(LifecyclePhase::Shutdown, runtime.phase);
    assert!(runtime.shutdown_manager.is_shutdown());

    let runtime = RuntimeBuilder::new().ignore_config_files().init().post_init().do_not_run().get();
    assert_eq!(LifecyclePhase::Finished, runtime.phase);
}

#[test]
fn option_option_get() {
    assert_eq!(Some(3), OptionOption::from(3).get());
    assert_eq!(None::<i32>, OptionOption::from(None::<i32>).get());
    assert_eq!(Some("x".to_string()), OptionOption::<String>::from("x").get());
}

#[test]
fn shutdown_flag() {
    assert!(!create_shutdown_state().0);
    let mut m = ShutdownManagerImpl::new();
    assert!(!m.is_shutdown());
    m.do_shutdown();
    assert!(m.is_shutdown());
}

#[test]
fn shutdown_property_values() {
    let mut m = ShutdownManagerImpl::new();
    assert_eq!(ShutdownRequest::Ignore, m.on_shutdown_value(&Json::Bool(false)));
    assert!(!m.is_shutdown());
    assert_eq!(ShutdownRequest::Ignore, m.on_shutdown_value(&Json::String("now".to_string())));
    assert_eq!(ShutdownRequest::AfterSeconds(5), m.on_shutdown_value(&Json::Number(JsonNumber::PosInt(5))));
    assert!(!m.is_shutdown());
    assert_eq!(ShutdownRequest::Now, m.on_shutdown_value(&Json::Bool(true)));
    assert!(m.is_shutdown());
    // once requested, the shutdown stays requested
    assert_eq!(ShutdownRequest::Ignore, m.on_shutdown_value(&Json::Bool(false)));
    assert!(m.is_shutdown());
    assert_eq!(ShutdownRequest::AfterSeconds(0), m.on_shutdown_value(&Json::Number(JsonNumber::PosInt(0))));
    m.do_shutdown();
    assert!(m.is_shutdown());
    let props = ShutdownManagerImpl::shutdown_properties();
    assert_eq!("label", props[0].0);
    assert_eq!("shutdown", props[1].0);
}

#[test]
fn build_builder_get() {
    let runtime = RuntimeBuilder::new()
        .ignore_config_files()
        .instance_name(OptionOption::from("Test Runtime Builder Get"))
        .pick_free_port()
        .disable_all_plugins(OptionOption::from(true))
        .get();
    assert_eq!(Some("Test Runtime Builder Get".to_string()), runtime.config.instance_name);
    assert_eq!(Some(true), runtime.config.disable_all_plugins);
    let mut runtime = runtime;
    let waiting = tokio::runtime::Runtime::new().unwrap();
    waiting.block_on(async {
        tokio::time::sleep(std::time::Duration::from_millis(2000)).await;
    });
    runtime.shutdown_manager.do_shutdown();
    assert!(runtime.shutdown_manager.is_shutdown());
}

#[test]
fn run_it() {
    let waiting = tokio::runtime::Runtime::new().unwrap();
    let ready = RuntimeBuilder::new()
        .config_files_loaded()
        .instance_name(OptionOption::from("Test runtime builder with timeout"))
        .disable_all_plugins(OptionOption::from(true))
        .init()
        .post_init();
    waiting.block_on(async {
        tokio::time::sleep(std::time::Duration::from_millis(300)).await;
    });
    let shut_down = ready.request_shutdown().run().pre_shutdown().shutdown();
    waiting.block_on(async {
        tokio::time::sleep(std::time::Duration::from_millis(300)).await;
    });
    let runtime = shut_down.get();
    assert_eq!(LifecyclePhase::Shutdown, runtime.phase);
    assert_eq!(Some("Test runtime builder with timeout".to_string()), runtime.config.instance_name);
}

#[test]
fn test_shutdown() {
    let start = std::time::Instant::now();
    let waiting = tokio::runtime::Runtime::new().unwrap();
    let ready = RuntimeBuilder::new()
        .ignore_config_files()
        .disable_all_plugins(OptionOption::from(true))
        .pick_free_port()
        .init()
        .post_init();
    waiting.block_on(async {
        tokio::time::sleep(std::time::Duration::from_millis(500)).await;
    });
    let runtime = ready.request_shutdown().run().pre_shutdown().shutdown().get();
    let elapsed = start.elapsed();
    assert_eq!(LifecyclePhase::Shutdown, runtime.phase);
    assert!(elapsed > std::time::Duration::from_millis(500), "Shutdown at earliest after 2 seconds");
    assert!(elapsed < std::time::Duration::from_millis(600), "Shutdown at latest after 3 seconds");
}
