//! Outbound connect services: resolve an address, then open the stream.
//!
//! Both services run the same two stages; one yields the full connection,
//! the other only the TCP stream. The resolver lookups and socket opens
//! happen in the runtime's futures; each poll step here takes the outcomes
//! those futures reported and drives the stage machine, verified for every
//! outcome.

use vstd::prelude::*;

verus! {

/// The shared address resolver. How it resolves belongs to the runtime.
#[derive(Clone, Copy, PartialEq, Eq, Structural, Debug)]
pub struct Resolver {}

/// Factory of resolver handles, one per service.
#[derive(Clone, Copy, PartialEq, Eq, Structural, Debug)]
pub struct ResolverFactory {
    pub resolver: Resolver,
}

impl ResolverFactory {
    pub fn new(resolver: Resolver) -> (f: ResolverFactory)
        ensures
            f.resolver == resolver,
    {
        ResolverFactory { resolver }
    }

    pub fn service(&self) -> (r: Resolver)
        ensures
            r == self.resolver,
    {
        self.resolver
    }
}

/// Factory of TCP connectors.
#[derive(Clone, Copy, PartialEq, Eq, Structural, Debug)]
pub struct TcpConnectorFactory {}

/// Opens the stream once an address is resolved; the socket work belongs to
/// the runtime.
#[derive(Clone, Copy, PartialEq, Eq, Structural, Debug)]
pub struct TcpConnector {}

impl TcpConnectorFactory {
    pub fn service(&self) -> (t: TcpConnector)
        ensures
            t == (TcpConnector {  }),
    {
        TcpConnector {  }
    }
}

/// Factory of connect services sharing one resolver.
#[derive(Clone, Copy, PartialEq, Eq, Structural, Debug)]
pub struct ConnectServiceFactory {
    pub tcp: TcpConnectorFactory,
    pub resolver: ResolverFactory,
}

/// Resolves, then connects; yields the full connection.
#[derive(Clone, Copy, PartialEq, Eq, Structural, Debug)]
pub struct ConnectService {
    pub tcp: TcpConnector,
    pub resolver: Resolver,
}

/// Resolves, then connects; yields only the TCP stream.
#[derive(Clone, Copy, PartialEq, Eq, Structural, Debug)]
pub struct TcpConnectService {
    pub tcp: TcpConnector,
    pub resolver: Resolver,
}

impl ConnectServiceFactory {
    /// Construct a new connect service factory around `resolver`.
    pub fn new(resolver: Resolver) -> (f: ConnectServiceFactory)
        ensures
            f.tcp == (TcpConnectorFactory {  }),
            f.resolver.resolver == resolver,
    {
        ConnectServiceFactory { tcp: TcpConnectorFactory {  }, resolver: ResolverFactory::new(resolver) }
    }

    /// Construct a new connect service.
    pub fn service(&self) -> (s: ConnectService)
        ensures
            s.tcp == (TcpConnector {  }),
            s.resolver == self.resolver.resolver,
    {
        ConnectService { tcp: self.tcp.service(), resolver: self.resolver.service() }
    }

    /// Construct a new TCP stream service.
    pub fn tcp_service(&self) -> (s: TcpConnectService)
        ensures
            s.tcp == (TcpConnector {  }),
            s.resolver == self.resolver.resolver,
    {
        TcpConnectService { tcp: self.tcp.service(), resolver: self.resolver.service() }
    }
}

/// Which stage a connect response is in.
#[derive(Clone, Copy, PartialEq, Eq, Structural, Debug)]
pub enum ConnectStage {
    /// Waiting for the resolver.
    Resolve,
    /// Address in hand, waiting for the socket.
    Connect,
}

/// Outcome the current stage's future reported when polled.
#[derive(Clone, Copy, PartialEq, Eq, Structural, Debug)]
pub enum StagePoll {
    Pending,
    Done,
    Failed,
}

/// What one poll of a connect response reports outward.
#[derive(Clone, Copy, PartialEq, Eq, Structural, Debug)]
pub enum ConnectPoll {
    Pending,
    /// The connection (or stream) is established.
    Ready,
    /// Resolution or connecting failed.
    Error,
}

/// A connect stage outcome as the response reports it outward.
pub open spec fn stage_report(p: StagePoll) -> ConnectPoll {
    match p {
        StagePoll::Pending => ConnectPoll::Pending,
        StagePoll::Done => ConnectPoll::Ready,
        StagePoll::Failed => ConnectPoll::Error,
    }
}

/// In-flight call of a connect service.
#[derive(Clone, Copy, PartialEq, Eq, Structural, Debug)]
pub struct ConnectServiceResponse {
    pub stage: ConnectStage,
}

/// In-flight call of a TCP stream service.
#[derive(Clone, Copy, PartialEq, Eq, Structural, Debug)]
pub struct TcpConnectServiceResponse {
    pub stage: ConnectStage,
}

/// One poll of a two-stage connect. In the resolve stage a finished
/// resolution switches to the connect stage and the fresh connect future is
/// polled at once; the connect stage reports its own future's outcome.
pub open spec fn connect_step(
    stage: ConnectStage,
    resolve: StagePoll,
    connect: StagePoll,
) -> (ConnectStage, ConnectPoll) {
    match stage {
        ConnectStage::Resolve => match resolve {
            StagePoll::Pending => (ConnectStage::Resolve, ConnectPoll::Pending),
            StagePoll::Failed => (ConnectStage::Resolve, ConnectPoll::Error),
            StagePoll::Done => (ConnectStage::Connect, stage_report(connect)),
        },
        ConnectStage::Connect => (ConnectStage::Connect, stage_report(connect)),
    }
}

impl ConnectService {
    /// Begin a call: the response starts at the resolve stage. The service
    /// is always ready.
    pub fn call(&self) -> (r: ConnectServiceResponse)
        ensures
            r.stage == ConnectStage::Resolve,
    {
        ConnectServiceResponse { stage: ConnectStage::Resolve }
    }
}

impl ConnectServiceResponse {
    /// One poll step; `resolve` and `connect` are the outcomes the stage
    /// futures reported when polled in this step.
    pub fn poll(&mut self, resolve: StagePoll, connect: StagePoll) -> (r: ConnectPoll)
        ensures
            (final(self).stage, r) == connect_step(old(self).stage, resolve, connect),
    {
        match self.stage {
            ConnectStage::Resolve => match resolve {
                StagePoll::Pending => ConnectPoll::Pending,
                StagePoll::Failed => ConnectPoll::Error,
                StagePoll::Done => {
                    self.stage = ConnectStage::Connect;
                    match connect {
                        StagePoll::Pending => ConnectPoll::Pending,
                        StagePoll::Done => ConnectPoll::Ready,
                        StagePoll::Failed => ConnectPoll::Error,
                    }
                },
            },
            ConnectStage::Connect => match connect {
                StagePoll::Pending => ConnectPoll::Pending,
                StagePoll::Done => ConnectPoll::Ready,
                StagePoll::Failed => ConnectPoll::Error,
            },
        }
    }
}

impl TcpConnectService {
    /// Begin a call: the response starts at the resolve stage. The service
    /// is always ready.
    pub fn call(&self) -> (r: TcpConnectServiceResponse)
        ensures
            r.stage == ConnectStage::Resolve,
    {
        TcpConnectServiceResponse { stage: ConnectStage::Resolve }
    }
}

impl TcpConnectServiceResponse {
    /// One poll step; `resolve` and `connect` are the outcomes the stage
    /// futures reported when polled in this step.
    pub fn poll(&mut self, resolve: StagePoll, connect: StagePoll) -> (r: ConnectPoll)
        ensures
            (final(self).stage, r) == connect_step(old(self).stage, resolve, connect),
    {
        match self.stage {
            ConnectStage::Resolve => match resolve {
                StagePoll::Pending => ConnectPoll::Pending,
                StagePoll::Failed => ConnectPoll::Error,
                StagePoll::Done => {
                    self.stage = ConnectStage::Connect;
                    match connect {
                        StagePoll::Pending => ConnectPoll::Pending,
                        StagePoll::Done => ConnectPoll::Ready,
                        StagePoll::Failed => ConnectPoll::Error,
                    }
                },
            },
            ConnectStage::Connect => match connect {
                StagePoll::Pending => ConnectPoll::Pending,
                StagePoll::Done => ConnectPoll::Ready,
                StagePoll::Failed => ConnectPoll::Error,
            },
        }
    }
}

} // verus!
