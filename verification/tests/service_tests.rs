use conn_server::blocking::{blocking_result, pool_limits, BlockingError, PoolLimits};
use conn_server::connect::{
    ConnectPoll, ConnectServiceFactory, ConnectStage, Resolver, StagePoll,
};
use conn_server::service::{map_config, unit_config, Factory, MapConfig, MappedConfig, Service};
use conn_server::transform::{apply, Transform, TransformMapInitErr};

// A small factory for exercising the combinators: it yields its configured
// number, or fails when asked for zero.
struct NumberFactory;

impl Factory for NumberFactory {
    type Config = u32;
    type Request = ();
    type Response = ();
    type Error = ();
    type InitError = u32;
    type Service = u32;

    fn can_create(&self, _cfg: &u32) -> bool {
        true
    }

    fn created(&self, _cfg: &u32, _r: Result<u32, u32>) -> bool {
        true
    }

    fn new_service(&self, cfg: &u32) -> Result<u32, u32> {
        if *cfg == 0 {
            Err(0)
        } else {
            Ok(*cfg)
        }
    }
}

struct UnitFactory;

impl Factory for UnitFactory {
    type Config = ();
    type Request = ();
    type Response = ();
    type Error = ();
    type InitError = u32;
    type Service = u32;

    fn can_create(&self, _cfg: &()) -> bool {
        true
    }

    fn created(&self, _cfg: &(), _r: Result<u32, u32>) -> bool {
        true
    }

    fn new_service(&self, _cfg: &()) -> Result<u32, u32> {
        Ok(7)
    }
}

fn owned_inc(outer: &u32) -> MappedConfig<'_, u32> {
    MappedConfig::Owned(*outer + 1)
}

fn borrow_outer(outer: &u32) -> MappedConfig<'_, u32> {
    MappedConfig::Ref(outer)
}

#[test]
fn map_config_derives_the_inner_config() {
    let f = map_config(NumberFactory, owned_inc);
    assert_eq!(f.new_service(&4), Ok(5));

    let g = MapConfig::new(NumberFactory, borrow_outer);
    assert_eq!(g.new_service(&3), Ok(3));
}

#[test]
fn unit_config_ignores_the_outer_config() {
    let f = unit_config::<UnitFactory, u32>(UnitFactory);
    assert_eq!(f.new_service(&99), Ok(7));
}

// A service, a factory producing it, and a wrapping transform, for
// exercising `apply` and the init-error mapping.
#[derive(PartialEq, Debug)]
struct Echo;

impl Service<u32> for Echo {
    type Response = u32;
    type Error = ();

    fn ready(&self) -> bool {
        true
    }

    fn call(&mut self, req: u32) -> Result<u32, ()> {
        Ok(req)
    }
}

struct EchoFactory {
    fail: bool,
}

impl Factory for EchoFactory {
    type Config = ();
    type Request = u32;
    type Response = u32;
    type Error = ();
    type InitError = u32;
    type Service = Echo;

    fn can_create(&self, _cfg: &()) -> bool {
        true
    }

    fn created(&self, _cfg: &(), _r: Result<Echo, u32>) -> bool {
        true
    }

    fn new_service(&self, _cfg: &()) -> Result<Echo, u32> {
        if self.fail {
            Err(3)
        } else {
            Ok(Echo)
        }
    }
}

struct Identity;

impl Transform<Echo, u32> for Identity {
    type Response = u32;
    type Error = ();
    type Transform = Echo;
    type InitError = u32;

    fn can_transform(&self, _service: &Echo) -> bool {
        true
    }

    fn built(&self, _service: Echo, _r: Result<Echo, u32>) -> bool {
        true
    }

    fn new_transform(&self, service: Echo) -> Result<Echo, u32> {
        Ok(service)
    }
}

#[test]
fn apply_wraps_the_created_service() {
    let f = apply(Identity, EchoFactory { fail: false });
    assert_eq!(f.new_service(&()), Ok(Echo));

    let f = apply(Identity, EchoFactory { fail: true });
    assert_eq!(f.new_service(&()), Err(3));
}

struct Failing;

impl Transform<Echo, u32> for Failing {
    type Response = u32;
    type Error = ();
    type Transform = Echo;
    type InitError = u32;

    fn can_transform(&self, _service: &Echo) -> bool {
        true
    }

    fn built(&self, _service: Echo, _r: Result<Echo, u32>) -> bool {
        true
    }

    fn new_transform(&self, _service: Echo) -> Result<Echo, u32> {
        Err(3)
    }
}

#[test]
fn map_init_err_changes_the_error() {
    let t: TransformMapInitErr<Identity, Echo, u32, _, u32> =
        TransformMapInitErr::new(Identity, |e: u32| e + 100);
    assert_eq!(t.new_transform(Echo), Ok(Echo));

    let t: TransformMapInitErr<Failing, Echo, u32, _, u32> =
        TransformMapInitErr::new(Failing, |e: u32| e + 100);
    assert_eq!(t.new_transform(Echo), Err(103));
}

#[test]
fn connect_factory_builds_services() {
    let factory = ConnectServiceFactory::new(Resolver {});
    let service = factory.service();
    assert_eq!(service.resolver, Resolver {});
    let tcp = factory.tcp_service();
    assert_eq!(tcp.resolver, Resolver {});
    let cloned = factory.clone();
    assert_eq!(cloned, factory);
}

#[test]
fn connect_response_resolves_then_connects() {
    let factory = ConnectServiceFactory::new(Resolver {});
    let service = factory.service();
    let mut response = service.call();
    assert_eq!(response.stage, ConnectStage::Resolve);

    // Resolution pending: the poll stays in the resolve stage.
    assert_eq!(response.poll(StagePoll::Pending, StagePoll::Pending), ConnectPoll::Pending);
    assert_eq!(response.stage, ConnectStage::Resolve);

    // Resolution done: the connect future starts and is polled at once.
    assert_eq!(response.poll(StagePoll::Done, StagePoll::Pending), ConnectPoll::Pending);
    assert_eq!(response.stage, ConnectStage::Connect);

    // The socket opens.
    assert_eq!(response.poll(StagePoll::Pending, StagePoll::Done), ConnectPoll::Ready);
}

#[test]
fn connect_response_reports_failures() {
    let factory = ConnectServiceFactory::new(Resolver {});

    let mut response = factory.service().call();
    assert_eq!(response.poll(StagePoll::Failed, StagePoll::Pending), ConnectPoll::Error);

    let mut tcp = factory.tcp_service().call();
    assert_eq!(tcp.poll(StagePoll::Done, StagePoll::Failed), ConnectPoll::Error);
    assert_eq!(tcp.stage, ConnectStage::Connect);
}

#[test]
fn blocking_outcomes_map_to_results() {
    assert_eq!(blocking_result::<u32, u32>(Some(Ok(1))), Ok(1));
    assert_eq!(blocking_result::<u32, u32>(Some(Err(2))), Err(BlockingError::Error(2)));
    assert_eq!(blocking_result::<u32, u32>(None), Err(BlockingError::Canceled));
}

#[test]
fn pool_limits_defaults_and_overrides() {
    let l = pool_limits(None, None, None, 4);
    assert_eq!(l, PoolLimits { max_threads: 20, min_threads: 1, idle_timeout_secs: 60 });

    let l = pool_limits(Some(30), Some(2), Some(5), 4);
    assert_eq!(l, PoolLimits { max_threads: 30, min_threads: 2, idle_timeout_secs: 5 });
}
