use core::marker::PhantomData;
use vstd::prelude::*;

use crate::shutdown::ShutdownManagerImpl;
use crate::strings::strings_view;

verus! {

/// The builder may still set the locations of the configuration files.
pub struct SetConfigLocations {
    unconstructible: (),
}

/// The configuration files are loaded, or ignored.
pub struct ConfigFilesLoaded {
    unconstructible: (),
}

/// The runtime has not been started.
pub struct NotRunning {
    unconstructible: (),
}

/// The runtime is initialized.
pub struct Initialized {
    unconstructible: (),
}

/// The runtime is ready to run.
pub struct Ready {
    unconstructible: (),
}

/// The runtime has run.
pub struct Finished {
    unconstructible: (),
}

/// The runtime is prepared for the shutdown.
pub struct PreShutdown {
    unconstructible: (),
}

/// The runtime is shut down.
pub struct Shutdown {
    unconstructible: (),
}

/// The phase of the lifecycle of a runtime.
#[derive(Debug, Clone, Copy, PartialEq, Eq, Structural)]
pub enum LifecyclePhase {
    NotRunning,
    Initialized,
    Ready,
    Finished,
    PreShutdown,
    Shutdown,
}

/// The model of the configuration of a runtime.
pub struct RuntimeConfigView {
    pub instance_config_location: Option<Seq<char>>,
    pub graphql_server_config_location: Option<Seq<char>>,
    pub plugins_config_location: Option<Seq<char>>,
    pub instance_name: Option<Seq<char>>,
    pub instance_description: Option<Seq<char>>,
    pub hostname: Option<Seq<char>>,
    pub port: Option<u16>,
    pub secure: Option<bool>,
    pub shutdown_timeout: Option<u64>,
    pub workers: Option<usize>,
    pub default_context_path: Option<Seq<char>>,
    pub disable_all_plugins: Option<bool>,
    pub disabled_plugins: Option<Seq<Seq<char>>>,
    pub disable_hot_deploy: Option<bool>,
}

/// The configuration that the builder sets on a runtime; a value that is not
/// set leaves the runtime's own default in place.
#[derive(Debug)]
pub struct RuntimeConfig {
    pub instance_config_location: Option<String>,
    pub graphql_server_config_location: Option<String>,
    pub plugins_config_location: Option<String>,
    pub instance_name: Option<String>,
    pub instance_description: Option<String>,
    pub hostname: Option<String>,
    pub port: Option<u16>,
    pub secure: Option<bool>,
    pub shutdown_timeout: Option<u64>,
    pub workers: Option<usize>,
    pub default_context_path: Option<String>,
    pub disable_all_plugins: Option<bool>,
    pub disabled_plugins: Option<Vec<String>>,
    pub disable_hot_deploy: Option<bool>,
}

/// The model of an optional string.
pub open spec fn opt_view(o: Option<String>) -> Option<Seq<char>> {
    match o {
        Some(s) => Some(s@),
        None => None,
    }
}

impl View for RuntimeConfig {
    type V = RuntimeConfigView;

    open spec fn view(&self) -> RuntimeConfigView {
        RuntimeConfigView {
            instance_config_location: opt_view(self.instance_config_location),
            graphql_server_config_location: opt_view(self.graphql_server_config_location),
            plugins_config_location: opt_view(self.plugins_config_location),
            instance_name: opt_view(self.instance_name),
            instance_description: opt_view(self.instance_description),
            hostname: opt_view(self.hostname),
            port: self.port,
            secure: self.secure,
            shutdown_timeout: self.shutdown_timeout,
            workers: self.workers,
            default_context_path: opt_view(self.default_context_path),
            disable_all_plugins: self.disable_all_plugins,
            disabled_plugins: match self.disabled_plugins {
                Some(v) => Some(strings_view(v@)),
                None => None,
            },
            disable_hot_deploy: self.disable_hot_deploy,
        }
    }
}

impl RuntimeConfig {
    /// A configuration that sets nothing.
    pub fn new() -> (r: RuntimeConfig)
        ensures
            r@ == (RuntimeConfigView {
                instance_config_location: None,
                graphql_server_config_location: None,
                plugins_config_location: None,
                instance_name: None,
                instance_description: None,
                hostname: None,
                port: None,
                secure: None,
                shutdown_timeout: None,
                workers: None,
                default_context_path: None,
                disable_all_plugins: None,
                disabled_plugins: None,
                disable_hot_deploy: None,
            }),
    {
        RuntimeConfig {
            instance_config_location: None,
            graphql_server_config_location: None,
            plugins_config_location: None,
            instance_name: None,
            instance_description: None,
            hostname: None,
            port: None,
            secure: None,
            shutdown_timeout: None,
            workers: None,
            default_context_path: None,
            disable_all_plugins: None,
            disabled_plugins: None,
            disable_hot_deploy: None,
        }
    }
}

/// The model of a runtime.
pub struct RuntimeView {
    pub config: RuntimeConfigView,
    pub phase: LifecyclePhase,
    pub shutdown_requested: bool,
}

/// A runtime: its configuration, the phase of its lifecycle and its
/// shutdown manager.
#[derive(Debug)]
pub struct Runtime {
    pub config: RuntimeConfig,
    pub phase: LifecyclePhase,
    pub shutdown_manager: ShutdownManagerImpl,
}

impl View for Runtime {
    type V = RuntimeView;

    open spec fn view(&self) -> RuntimeView {
        RuntimeView {
            config: self.config@,
            phase: self.phase,
            shutdown_requested: self.shutdown_manager@,
        }
    }
}

impl Runtime {
    /// A runtime that is not running, with nothing configured and no
    /// shutdown requested.
    pub fn new() -> (r: Runtime)
        ensures
            r@.config == RuntimeConfig::new_spec(),
            r@.phase == LifecyclePhase::NotRunning,
            !r@.shutdown_requested,
    {
        Runtime { config: RuntimeConfig::new(), phase: LifecyclePhase::NotRunning, shutdown_manager: ShutdownManagerImpl::new() }
    }
}

impl RuntimeConfig {
    /// The configuration that sets nothing.
    pub open spec fn new_spec() -> RuntimeConfigView {
        RuntimeConfigView {
            instance_config_location: None,
            graphql_server_config_location: None,
            plugins_config_location: None,
            instance_name: None,
            instance_description: None,
            hostname: None,
            port: None,
            secure: None,
            shutdown_timeout: None,
            workers: None,
            default_context_path: None,
            disable_all_plugins: None,
            disabled_plugins: None,
            disable_hot_deploy: None,
        }
    }
}

/// A value that may be given or not: what the setters of the builder take.
#[derive(Debug)]
pub struct OptionOption<T>(pub Option<T>);

impl<T> OptionOption<T> {
    /// Returns the value, where one was given.
    pub fn get(self) -> (r: Option<T>)
        ensures
            r == self.0,
    {
        self.0
    }
}

impl<T> vstd::std_specs::convert::FromSpecImpl<T> for OptionOption<T> {
    open spec fn obeys_from_spec() -> bool {
        true
    }

    open spec fn from_spec(v: T) -> OptionOption<T> {
        OptionOption(Some(v))
    }
}

impl<T> From<T> for OptionOption<T> {
    /// A given value.
    fn from(value: T) -> (r: OptionOption<T>) {
        OptionOption(Some(value))
    }
}

impl<T> vstd::std_specs::convert::FromSpecImpl<Option<T>> for OptionOption<T> {
    open spec fn obeys_from_spec() -> bool {
        true
    }

    open spec fn from_spec(v: Option<T>) -> OptionOption<T> {
        OptionOption(v)
    }
}

impl<T> From<Option<T>> for OptionOption<T> {
    /// A value that may be given or not.
    fn from(value: Option<T>) -> (r: OptionOption<T>) {
        OptionOption(value)
    }
}

impl<'a> vstd::std_specs::convert::FromSpecImpl<&'a str> for OptionOption<String> {
    /// Two strings with the same text are not known to be equal values, so
    /// the conversion states its result on its own `from`, by the text.
    open spec fn obeys_from_spec() -> bool {
        false
    }

    open spec fn from_spec(v: &'a str) -> OptionOption<String> {
        OptionOption(Some(choose|s: String| s@ == v@))
    }
}

impl<'a> From<&'a str> for OptionOption<String> {
    /// A given string.
    fn from(value: &'a str) -> (r: OptionOption<String>)
        ensures
            r.0 is Some && r.0->0@ == value@,
    {
        OptionOption(Some(value.to_owned()))
    }
}

impl OptionOption<String> {
    /// A given string.
    pub fn of_str(value: &str) -> (r: OptionOption<String>)
        ensures
            r.0 is Some && r.0.unwrap()@ == value@,
    {
        OptionOption(Some(value.to_owned()))
    }
}

/// The model of the value of an `OptionOption<String>`.
pub open spec fn given_string(o: OptionOption<String>) -> Option<Seq<char>> {
    opt_view(o.0)
}

/// Builds and drives a runtime; its type tells how far it has got.
pub struct RuntimeBuilder<L, R> {
    runtime: Runtime,
    typestate: PhantomData<(L, R)>,
}

impl<L, R> View for RuntimeBuilder<L, R> {
    type V = RuntimeView;

    closed spec fn view(&self) -> RuntimeView {
        self.runtime@
    }
}

impl<L, R> RuntimeBuilder<L, R> {
    /// Requests the shutdown of the runtime, as a timer that runs out, or
    /// another user of the runtime, does at any point of its lifecycle.
    pub fn request_shutdown(self) -> (r: RuntimeBuilder<L, R>)
        ensures
            r@ == (RuntimeView { shutdown_requested: true, ..self@ }),
    {
        let mut runtime = self.runtime;
        runtime.shutdown_manager.do_shutdown();
        RuntimeBuilder { runtime, typestate: PhantomData }
    }
}

impl RuntimeBuilder<SetConfigLocations, NotRunning> {
    /// Starts building a runtime with nothing configured.
    pub fn new() -> (r: RuntimeBuilder<SetConfigLocations, NotRunning>)
        ensures
            r@.config == RuntimeConfig::new_spec(),
            r@.phase == LifecyclePhase::NotRunning,
            !r@.shutdown_requested,
    {
        RuntimeBuilder { runtime: Runtime::new(), typestate: PhantomData }
    }

    /// Sets where the configuration of the instance is read from.
    pub fn instance_config(self, location: OptionOption<String>) -> (r: RuntimeBuilder<SetConfigLocations, NotRunning>)
        ensures
            r@ == (match given_string(location) {
                Some(v) => RuntimeView { config: RuntimeConfigView { instance_config_location: Some(v), ..self@.config }, ..self@ },
                None => self@,
            }),
    {
        let mut runtime = self.runtime;
        if let Some(v) = location.get() {
            runtime.config.instance_config_location = Some(v);
        }
        RuntimeBuilder { runtime, typestate: PhantomData }
    }

    /// Sets where the configuration of the GraphQL server is read from.
    pub fn graphql_server_config(self, location: OptionOption<String>) -> (r: RuntimeBuilder<SetConfigLocations, NotRunning>)
        ensures
            r@ == (match given_string(location) {
                Some(v) => RuntimeView { config: RuntimeConfigView { graphql_server_config_location: Some(v), ..self@.config }, ..self@ },
                None => self@,
            }),
    {
        let mut runtime = self.runtime;
        if let Some(v) = location.get() {
            runtime.config.graphql_server_config_location = Some(v);
        }
        RuntimeBuilder { runtime, typestate: PhantomData }
    }

    /// Sets where the configuration of the plugins is read from.
    pub fn plugins_config(self, location: OptionOption<String>) -> (r: RuntimeBuilder<SetConfigLocations, NotRunning>)
        ensures
            r@ == (match given_string(location) {
                Some(v) => RuntimeView { config: RuntimeConfigView { plugins_config_location: Some(v), ..self@.config }, ..self@ },
                None => self@,
            }),
    {
        let mut runtime = self.runtime;
        if let Some(v) = location.get() {
            runtime.config.plugins_config_location = Some(v);
        }
        RuntimeBuilder { runtime, typestate: PhantomData }
    }

    /// Goes on with the configuration that the runtime has, reading no file.
    pub fn ignore_config_files(self) -> (r: RuntimeBuilder<ConfigFilesLoaded, NotRunning>)
        ensures
            r@ == self@,
    {
        RuntimeBuilder { runtime: self.runtime, typestate: PhantomData }
    }

    /// Goes on once the configuration files have been read.
    pub fn config_files_loaded(self) -> (r: RuntimeBuilder<ConfigFilesLoaded, NotRunning>)
        ensures
            r@ == self@,
    {
        RuntimeBuilder { runtime: self.runtime, typestate: PhantomData }
    }
}

impl RuntimeBuilder<ConfigFilesLoaded, NotRunning> {
    /// Sets the name of the instance.
    pub fn instance_name(self, instance_name: OptionOption<String>) -> (r: RuntimeBuilder<ConfigFilesLoaded, NotRunning>)
        ensures
            r@ == (match given_string(instance_name) {
                Some(v) => RuntimeView { config: RuntimeConfigView { instance_name: Some(v), ..self@.config }, ..self@ },
                None => self@,
            }),
    {
        let mut runtime = self.runtime;
        if let Some(v) = instance_name.get() {
            runtime.config.instance_name = Some(v);
        }
        RuntimeBuilder { runtime, typestate: PhantomData }
    }

    /// Sets the description of the instance.
    pub fn instance_description(self, instance_description: OptionOption<String>) -> (r: RuntimeBuilder<ConfigFilesLoaded, NotRunning>)
        ensures
            r@ == (match given_string(instance_description) {
                Some(v) => RuntimeView { config: RuntimeConfigView { instance_description: Some(v), ..self@.config }, ..self@ },
                None => self@,
            }),
    {
        let mut runtime = self.runtime;
        if let Some(v) = instance_description.get() {
            runtime.config.instance_description = Some(v);
        }
        RuntimeBuilder { runtime, typestate: PhantomData }
    }

    /// Sets the host name of the GraphQL server.
    pub fn hostname(self, hostname: OptionOption<String>) -> (r: RuntimeBuilder<ConfigFilesLoaded, NotRunning>)
        ensures
            r@ == (match given_string(hostname) {
                Some(v) => RuntimeView { config: RuntimeConfigView { hostname: Some(v), ..self@.config }, ..self@ },
                None => self@,
            }),
    {
        let mut runtime = self.runtime;
        if let Some(v) = hostname.get() {
            runtime.config.hostname = Some(v);
        }
        RuntimeBuilder { runtime, typestate: PhantomData }
    }

    /// Sets the port of the GraphQL server.
    pub fn port(self, port: OptionOption<u16>) -> (r: RuntimeBuilder<ConfigFilesLoaded, NotRunning>)
        ensures
            r@ == (match port.0 {
                Some(v) => RuntimeView { config: RuntimeConfigView { port: Some(v), ..self@.config }, ..self@ },
                None => self@,
            }),
    {
        let mut runtime = self.runtime;
        if let Some(v) = port.get() {
            runtime.config.port = Some(v);
        }
        RuntimeBuilder { runtime, typestate: PhantomData }
    }

    /// Sets the port of the GraphQL server to a port that the system reports
    /// free, where it finds one; otherwise changes nothing.
    pub fn pick_free_port(self) -> (r: RuntimeBuilder<ConfigFilesLoaded, NotRunning>)
        ensures
            r@ == (RuntimeView { config: RuntimeConfigView { port: r@.config.port, ..self@.config }, ..self@ }),
            r@.config.port == self@.config.port || r@.config.port is Some,
    {
        let picked = crate::wrappers::pick_unused_port();
        self.port(OptionOption(picked))
    }

    /// Sets whether the GraphQL server uses TLS.
    pub fn secure(self, secure: OptionOption<bool>) -> (r: RuntimeBuilder<ConfigFilesLoaded, NotRunning>)
        ensures
            r@ == (match secure.0 {
                Some(v) => RuntimeView { config: RuntimeConfigView { secure: Some(v), ..self@.config }, ..self@ },
                None => self@,
            }),
    {
        let mut runtime = self.runtime;
        if let Some(v) = secure.get() {
            runtime.config.secure = Some(v);
        }
        RuntimeBuilder { runtime, typestate: PhantomData }
    }

    /// Sets how many seconds the GraphQL server waits at shutdown.
    pub fn shutdown_timeout(self, shutdown_timeout: OptionOption<u64>) -> (r: RuntimeBuilder<ConfigFilesLoaded, NotRunning>)
        ensures
            r@ == (match shutdown_timeout.0 {
                Some(v) => RuntimeView { config: RuntimeConfigView { shutdown_timeout: Some(v), ..self@.config }, ..self@ },
                None => self@,
            }),
    {
        let mut runtime = self.runtime;
        if let Some(v) = shutdown_timeout.get() {
            runtime.config.shutdown_timeout = Some(v);
        }
        RuntimeBuilder { runtime, typestate: PhantomData }
    }

    /// Sets the number of workers of the GraphQL server.
    pub fn workers(self, workers: OptionOption<usize>) -> (r: RuntimeBuilder<ConfigFilesLoaded, NotRunning>)
        ensures
            r@ == (match workers.0 {
                Some(v) => RuntimeView { config: RuntimeConfigView { workers: Some(v), ..self@.config }, ..self@ },
                None => self@,
            }),
    {
        let mut runtime = self.runtime;
        if let Some(v) = workers.get() {
            runtime.config.workers = Some(v);
        }
        RuntimeBuilder { runtime, typestate: PhantomData }
    }

    /// Sets the default context path of the web resources.
    pub fn default_context_path(self, default_context_path: OptionOption<String>) -> (r: RuntimeBuilder<ConfigFilesLoaded, NotRunning>)
        ensures
            r@ == (match given_string(default_context_path) {
                Some(v) => RuntimeView { config: RuntimeConfigView { default_context_path: Some(v), ..self@.config }, ..self@ },
                None => self@,
            }),
    {
        let mut runtime = self.runtime;
        if let Some(v) = default_context_path.get() {
            runtime.config.default_context_path = Some(v);
        }
        RuntimeBuilder { runtime, typestate: PhantomData }
    }

    /// Sets whether all plugins are disabled.
    pub fn disable_all_plugins(self, disable_all_plugins: OptionOption<bool>) -> (r: RuntimeBuilder<ConfigFilesLoaded, NotRunning>)
        ensures
            r@ == (match disable_all_plugins.0 {
                Some(v) => RuntimeView { config: RuntimeConfigView { disable_all_plugins: Some(v), ..self@.config }, ..self@ },
                None => self@,
            }),
    {
        let mut runtime = self.runtime;
        if let Some(v) = disable_all_plugins.get() {
            runtime.config.disable_all_plugins = Some(v);
        }
        RuntimeBuilder { runtime, typestate: PhantomData }
    }

    /// Sets the plugins that are disabled.
    pub fn disabled_plugins(self, disabled_plugins: OptionOption<Vec<String>>) -> (r: RuntimeBuilder<ConfigFilesLoaded, NotRunning>)
        ensures
            r@ == (match disabled_plugins.0 {
                Some(v) => RuntimeView { config: RuntimeConfigView { disabled_plugins: Some(strings_view(v@)), ..self@.config }, ..self@ },
                None => self@,
            }),
    {
        let mut runtime = self.runtime;
        if let Some(v) = disabled_plugins.get() {
            runtime.config.disabled_plugins = Some(v);
        }
        RuntimeBuilder { runtime, typestate: PhantomData }
    }

    /// Sets whether the hot deployment of plugins is disabled.
    pub fn disable_hot_deploy(self, disable_hot_deploy: OptionOption<bool>) -> (r: RuntimeBuilder<ConfigFilesLoaded, NotRunning>)
        ensures
            r@ == (match disable_hot_deploy.0 {
                Some(v) => RuntimeView { config: RuntimeConfigView { disable_hot_deploy: Some(v), ..self@.config }, ..self@ },
                None => self@,
            }),
    {
        let mut runtime = self.runtime;
        if let Some(v) = disable_hot_deploy.get() {
            runtime.config.disable_hot_deploy = Some(v);
        }
        RuntimeBuilder { runtime, typestate: PhantomData }
    }

    /// Returns the runtime.
    pub fn get(self) -> (r: Runtime)
        ensures
            r@ == self@,
    {
        self.runtime
    }

    /// Initializes the runtime.
    pub fn init(self) -> (r: RuntimeBuilder<ConfigFilesLoaded, Initialized>)
        ensures
            r@ == (RuntimeView { phase: LifecyclePhase::Initialized, ..self@ }),
    {
        let mut runtime = self.runtime;
        runtime.phase = LifecyclePhase::Initialized;
        RuntimeBuilder { runtime, typestate: PhantomData }
    }

    /// Initializes, runs and shuts down the runtime. The run returns only
    /// once the shutdown has been requested, by a timer or by another user of
    /// the runtime; the runtime comes back shut down, with the request kept.
    pub fn block_on(self) -> (r: RuntimeBuilder<ConfigFilesLoaded, Shutdown>)
        requires
            self@.shutdown_requested,
        ensures
            r@ == (RuntimeView { phase: LifecyclePhase::Shutdown, ..self@ }),
    {
        let mut runtime = self.runtime;
        runtime.phase = LifecyclePhase::Shutdown;
        RuntimeBuilder { runtime, typestate: PhantomData }
    }
}

impl RuntimeBuilder<ConfigFilesLoaded, Initialized> {
    /// Completes the initialization of the runtime.
    pub fn post_init(self) -> (r: RuntimeBuilder<ConfigFilesLoaded, Ready>)
        ensures
            r@ == (RuntimeView { phase: LifecyclePhase::Ready, ..self@ }),
    {
        let mut runtime = self.runtime;
        runtime.phase = LifecyclePhase::Ready;
        RuntimeBuilder { runtime, typestate: PhantomData }
    }
}

impl RuntimeBuilder<ConfigFilesLoaded, Ready> {
    /// Returns the runtime.
    pub fn get(self) -> (r: Runtime)
        ensures
            r@ == self@,
    {
        self.runtime
    }

    /// Runs the runtime; this returns once the shutdown has been requested.
    pub fn run(self) -> (r: RuntimeBuilder<ConfigFilesLoaded, Finished>)
        requires
            self@.shutdown_requested,
        ensures
            r@ == (RuntimeView { phase: LifecyclePhase::Finished, ..self@ }),
    {
        let mut runtime = self.runtime;
        runtime.phase = LifecyclePhase::Finished;
        RuntimeBuilder { runtime, typestate: PhantomData }
    }

    /// Goes on without running the runtime.
    pub fn do_not_run(self) -> (r: RuntimeBuilder<ConfigFilesLoaded, Finished>)
        ensures
            r@ == (RuntimeView { phase: LifecyclePhase::Finished, ..self@ }),
    {
        let mut runtime = self.runtime;
        runtime.phase = LifecyclePhase::Finished;
        RuntimeBuilder { runtime, typestate: PhantomData }
    }
}

impl RuntimeBuilder<ConfigFilesLoaded, Finished> {
    /// Returns the runtime.
    pub fn get(self) -> (r: Runtime)
        ensures
            r@ == self@,
    {
        self.runtime
    }

    /// Prepares the runtime for the shutdown.
    pub fn pre_shutdown(self) -> (r: RuntimeBuilder<ConfigFilesLoaded, PreShutdown>)
        ensures
            r@ == (RuntimeView { phase: LifecyclePhase::PreShutdown, ..self@ }),
    {
        let mut runtime = self.runtime;
        runtime.phase = LifecyclePhase::PreShutdown;
        RuntimeBuilder { runtime, typestate: PhantomData }
    }
}

impl RuntimeBuilder<ConfigFilesLoaded, PreShutdown> {
    /// Shuts the runtime down.
    pub fn shutdown(self) -> (r: RuntimeBuilder<ConfigFilesLoaded, Shutdown>)
        ensures
            r@ == (RuntimeView { phase: LifecyclePhase::Shutdown, ..self@ }),
    {
        let mut runtime = self.runtime;
        runtime.phase = LifecyclePhase::Shutdown;
        RuntimeBuilder { runtime, typestate: PhantomData }
    }
}

impl RuntimeBuilder<ConfigFilesLoaded, Shutdown> {
    /// Returns the runtime.
    pub fn get(self) -> (r: Runtime)
        ensures
            r@ == self@,
    {
        self.runtime
    }
}

} // verus!
