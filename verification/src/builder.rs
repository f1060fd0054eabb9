//! Configuration of an action server, and the names of its endpoints.
//!
//! The builder carries the options a server is made with. `Q` is the QoS
//! profile type and `T` the type-information type of the transport; the
//! builder only stores them for whoever creates the endpoints.

use vstd::prelude::*;
use crate::error::ActionServerError;
use crate::model::ServerModel;
use crate::server::ZActionServer;
use crate::ids::GoalId;
use crate::state::GoalStateView;

verus! {

/// How long finished goals keep their results unless configured otherwise:
/// ten seconds, in nanoseconds.
pub const DEFAULT_RESULT_TIMEOUT: u64 = 10_000_000_000;

/// Builder of an action server.
pub struct ZActionServerBuilder<Q, T> {
    /// The name of the action.
    pub action_name: String,
    /// How long finished goals keep their results, in nanoseconds.
    pub result_timeout: u64,
    /// How long a goal may execute before it is aborted, in nanoseconds.
    pub goal_timeout: Option<u64>,
    /// QoS profile for the goal service.
    pub goal_service_qos: Option<Q>,
    /// QoS profile for the result service.
    pub result_service_qos: Option<Q>,
    /// QoS profile for the cancel service.
    pub cancel_service_qos: Option<Q>,
    /// QoS profile for the feedback topic.
    pub feedback_topic_qos: Option<Q>,
    /// QoS profile for the status topic.
    pub status_topic_qos: Option<Q>,
    /// Override for the goal (send_goal) type info.
    pub goal_type_info: Option<T>,
    /// Override for the result (get_result) type info.
    pub result_type_info: Option<T>,
    /// Override for the feedback type info.
    pub feedback_type_info: Option<T>,
}

impl<Q, T> ZActionServerBuilder<Q, T> {
    /// A builder for action `action_name` with the default options: results
    /// kept for ten seconds, no goal timeout, no QoS or type-info overrides.
    pub fn new(action_name: &str) -> (r: Self)
        ensures
            r.action_name@ == action_name@,
            r.result_timeout == DEFAULT_RESULT_TIMEOUT,
            r.goal_timeout is None,
            r.goal_service_qos is None,
            r.result_service_qos is None,
            r.cancel_service_qos is None,
            r.feedback_topic_qos is None,
            r.status_topic_qos is None,
            r.goal_type_info is None,
            r.result_type_info is None,
            r.feedback_type_info is None,
    {
        ZActionServerBuilder {
            action_name: action_name.to_owned(),
            result_timeout: DEFAULT_RESULT_TIMEOUT,
            goal_timeout: None,
            goal_service_qos: None,
            result_service_qos: None,
            cancel_service_qos: None,
            feedback_topic_qos: None,
            status_topic_qos: None,
            goal_type_info: None,
            result_type_info: None,
            feedback_type_info: None,
        }
    }

    /// Sets how long finished goals keep their results.
    pub fn with_result_timeout(self, timeout: u64) -> (r: Self)
        ensures
            r == (ZActionServerBuilder { result_timeout: timeout, ..self }),
    {
        ZActionServerBuilder { result_timeout: timeout, ..self }
    }

    /// Limits how long a goal may execute.
    pub fn with_goal_timeout(self, timeout: u64) -> (r: Self)
        ensures
            r == (ZActionServerBuilder { goal_timeout: Some(timeout), ..self }),
    {
        ZActionServerBuilder { goal_timeout: Some(timeout), ..self }
    }

    pub fn with_goal_service_qos(self, qos: Q) -> (r: Self)
        ensures
            r == (ZActionServerBuilder { goal_service_qos: Some(qos), ..self }),
    {
        ZActionServerBuilder { goal_service_qos: Some(qos), ..self }
    }

    pub fn with_result_service_qos(self, qos: Q) -> (r: Self)
        ensures
            r == (ZActionServerBuilder { result_service_qos: Some(qos), ..self }),
    {
        ZActionServerBuilder { result_service_qos: Some(qos), ..self }
    }

    pub fn with_cancel_service_qos(self, qos: Q) -> (r: Self)
        ensures
            r == (ZActionServerBuilder { cancel_service_qos: Some(qos), ..self }),
    {
        ZActionServerBuilder { cancel_service_qos: Some(qos), ..self }
    }

    pub fn with_feedback_topic_qos(self, qos: Q) -> (r: Self)
        ensures
            r == (ZActionServerBuilder { feedback_topic_qos: Some(qos), ..self }),
    {
        ZActionServerBuilder { feedback_topic_qos: Some(qos), ..self }
    }

    pub fn with_status_topic_qos(self, qos: Q) -> (r: Self)
        ensures
            r == (ZActionServerBuilder { status_topic_qos: Some(qos), ..self }),
    {
        ZActionServerBuilder { status_topic_qos: Some(qos), ..self }
    }

    /// Overrides the goal type info used for graph registration.
    pub fn with_goal_type_info(self, info: T) -> (r: Self)
        ensures
            r == (ZActionServerBuilder { goal_type_info: Some(info), ..self }),
    {
        ZActionServerBuilder { goal_type_info: Some(info), ..self }
    }

    /// Overrides the result type info used for graph registration.
    pub fn with_result_type_info(self, info: T) -> (r: Self)
        ensures
            r == (ZActionServerBuilder { result_type_info: Some(info), ..self }),
    {
        ZActionServerBuilder { result_type_info: Some(info), ..self }
    }

    /// Overrides the feedback type info used for graph registration.
    pub fn with_feedback_type_info(self, info: T) -> (r: Self)
        ensures
            r == (ZActionServerBuilder { feedback_type_info: Some(info), ..self }),
    {
        ZActionServerBuilder { feedback_type_info: Some(info), ..self }
    }

    /// The goal bookkeeping of the server this builder configures: no goals,
    /// with the builder's timeouts and the action's default result.
    pub fn build_state<W>(&self, default_result: Option<Vec<u8>>) -> (r: ZActionServer<W>)
        ensures
            r.model() == (ServerModel::<W> {
                goals: Map::<GoalId, GoalStateView>::empty(),
                waiters: Map::empty(),
                infos: Map::empty(),
                instances: Map::empty(),
                cancel_pending: Set::empty(),
                result_timeout: self.result_timeout,
                goal_timeout: self.goal_timeout,
                default_result: match default_result {
                    Some(v) => Some(v@),
                    None => None,
                },
                next_instance: 0,
                driver_started: false,
            }),
            r.goal_order() == Seq::<GoalId>::empty(),
    {
        ZActionServer::new(self.result_timeout, self.goal_timeout, default_result)
    }
}

/// Whether a topic keeps samples for subscribers that join later.
#[derive(Clone, Copy, Debug, PartialEq, Eq)]
pub enum QosDurability {
    Volatile,
    TransientLocal,
}

/// How many samples a topic keeps.
#[derive(Clone, Copy, Debug, PartialEq, Eq)]
pub enum QosHistory {
    KeepLast(usize),
    KeepAll,
}

/// The QoS of the status topic: a profile the builder was given, or the
/// standard one of ROS 2 action status topics, which sets durability and
/// history and leaves the rest of the profile at the transport's defaults.
#[derive(Debug, PartialEq, Eq)]
pub enum StatusTopicQos<Q> {
    Custom(Q),
    Standard { durability: QosDurability, history: QosHistory },
}

/// The status topic's QoS for a builder override: the override itself, or
/// transient-local durability with keep-last-1 history, so that a client that
/// subscribes late still receives the latest status.
pub open spec fn status_qos<Q>(over: Option<Q>) -> StatusTopicQos<Q> {
    match over {
        Some(q) => StatusTopicQos::Custom(q),
        None => StatusTopicQos::Standard {
            durability: QosDurability::TransientLocal,
            history: QosHistory::KeepLast(1),
        },
    }
}

fn choose_status_qos<Q>(over: Option<Q>) -> (r: StatusTopicQos<Q>)
    ensures
        r == status_qos(over),
{
    match over {
        Some(q) => StatusTopicQos::Custom(q),
        None => StatusTopicQos::Standard {
            durability: QosDurability::TransientLocal,
            history: QosHistory::KeepLast(1),
        },
    }
}

/// What an action declares for its endpoints: the type information of each.
pub struct EndpointDefaults<T> {
    pub send_goal_type_info: T,
    pub get_result_type_info: T,
    pub cancel_goal_type_info: T,
    pub feedback_type_info: T,
    pub status_type_info: T,
}

/// The QoS profile and type information each endpoint is created with.
pub struct EndpointSettings<Q, T> {
    /// QoS of the goal service; `None` keeps the service default.
    pub goal_service_qos: Option<Q>,
    /// QoS of the result service; `None` keeps the service default.
    pub result_service_qos: Option<Q>,
    /// QoS of the cancel service; `None` keeps the service default.
    pub cancel_service_qos: Option<Q>,
    /// QoS of the feedback topic; `None` keeps the publisher default.
    pub feedback_topic_qos: Option<Q>,
    /// QoS of the status topic.
    pub status_topic_qos: StatusTopicQos<Q>,
    pub goal_type_info: T,
    pub result_type_info: T,
    pub cancel_type_info: T,
    pub feedback_type_info: T,
    pub status_type_info: T,
}

/// A built server: its goal bookkeeping, endpoint names and endpoint settings.
pub struct BuiltServer<W, Q, T> {
    pub state: ZActionServer<W>,
    pub endpoints: ActionEndpoints,
    pub settings: EndpointSettings<Q, T>,
}

/// The value an override gives, or the default when there is none.
pub open spec fn overridden<X>(over: Option<X>, default: X) -> X {
    match over {
        Some(x) => x,
        None => default,
    }
}

fn choose_override<X>(over: Option<X>, default: X) -> (r: X)
    ensures
        r == overridden(over, default),
{
    match over {
        Some(x) => x,
        None => default,
    }
}

impl<Q, T> ZActionServerBuilder<Q, T> {
    /// The settings of each endpoint: the builder's QoS overrides, the status
    /// topic's standard QoS unless overridden, and each endpoint's type info,
    /// the builder's override where it has one (goal, result and feedback),
    /// the action's own otherwise.
    pub fn endpoint_settings(self, defaults: EndpointDefaults<T>) -> (r: EndpointSettings<Q, T>)
        ensures
            r.goal_service_qos == self.goal_service_qos,
            r.result_service_qos == self.result_service_qos,
            r.cancel_service_qos == self.cancel_service_qos,
            r.feedback_topic_qos == self.feedback_topic_qos,
            r.status_topic_qos == status_qos(self.status_topic_qos),
            r.goal_type_info == overridden(self.goal_type_info, defaults.send_goal_type_info),
            r.result_type_info == overridden(self.result_type_info, defaults.get_result_type_info),
            r.cancel_type_info == defaults.cancel_goal_type_info,
            r.feedback_type_info == overridden(self.feedback_type_info, defaults.feedback_type_info),
            r.status_type_info == defaults.status_type_info,
    {
        EndpointSettings {
            goal_service_qos: self.goal_service_qos,
            result_service_qos: self.result_service_qos,
            cancel_service_qos: self.cancel_service_qos,
            feedback_topic_qos: self.feedback_topic_qos,
            status_topic_qos: choose_status_qos(self.status_topic_qos),
            goal_type_info: choose_override(self.goal_type_info, defaults.send_goal_type_info),
            result_type_info: choose_override(self.result_type_info, defaults.get_result_type_info),
            cancel_type_info: defaults.cancel_goal_type_info,
            feedback_type_info: choose_override(self.feedback_type_info, defaults.feedback_type_info),
            status_type_info: defaults.status_type_info,
        }
    }

    /// Builds the server for this action, whose name after remapping is
    /// `remapped_name` and fully qualified `qualified_name`: an empty remapped
    /// name is refused; otherwise the server has no goals, the builder's
    /// timeouts, the five endpoint names, and each endpoint's settings.
    pub fn build<W>(
        self,
        remapped_name: &str,
        qualified_name: &str,
        defaults: EndpointDefaults<T>,
        default_result: Option<Vec<u8>>,
    ) -> (r: Result<BuiltServer<W, Q, T>, ActionServerError>)
        ensures
            remapped_name@.len() == 0 ==> r is Err && r == Err::<BuiltServer<W, Q, T>, ActionServerError>(
                ActionServerError::EmptyActionName,
            ),
            remapped_name@.len() > 0 ==> (r matches Ok(b) && {
                &&& b.state.model() == (ServerModel::<W> {
                    goals: Map::<GoalId, GoalStateView>::empty(),
                    waiters: Map::empty(),
                    infos: Map::empty(),
                    instances: Map::empty(),
                    cancel_pending: Set::empty(),
                    result_timeout: self.result_timeout,
                    goal_timeout: self.goal_timeout,
                    default_result: match default_result {
                        Some(v) => Some(v@),
                        None => None,
                    },
                    next_instance: 0,
                    driver_started: false,
                })
                &&& b.state.goal_order() == Seq::<GoalId>::empty()
                &&& b.endpoints.goal_service@ == qualified_name@ + "/_action/send_goal"@
                &&& b.endpoints.result_service@ == qualified_name@ + "/_action/get_result"@
                &&& b.endpoints.cancel_service@ == qualified_name@ + "/_action/cancel_goal"@
                &&& b.endpoints.feedback_topic@ == qualified_name@ + "/_action/feedback"@
                &&& b.endpoints.status_topic@ == qualified_name@ + "/_action/status"@
                &&& b.settings.goal_service_qos == self.goal_service_qos
                &&& b.settings.result_service_qos == self.result_service_qos
                &&& b.settings.cancel_service_qos == self.cancel_service_qos
                &&& b.settings.feedback_topic_qos == self.feedback_topic_qos
                &&& b.settings.status_topic_qos == status_qos(self.status_topic_qos)
                &&& b.settings.goal_type_info == overridden(self.goal_type_info, defaults.send_goal_type_info)
                &&& b.settings.result_type_info == overridden(
                    self.result_type_info,
                    defaults.get_result_type_info,
                )
                &&& b.settings.cancel_type_info == defaults.cancel_goal_type_info
                &&& b.settings.feedback_type_info == overridden(
                    self.feedback_type_info,
                    defaults.feedback_type_info,
                )
                &&& b.settings.status_type_info == defaults.status_type_info
            }),
    {
        if remapped_name.is_empty() {
            return Err(ActionServerError::EmptyActionName);
        }
        let endpoints = ActionEndpoints::new(qualified_name);
        let state = self.build_state(default_result);
        let settings = self.endpoint_settings(defaults);
        Ok(BuiltServer { state, endpoints, settings })
    }
}

/// Checks an action name after remapping: it must not be empty.
pub fn validate_action_name(action_name: &str) -> (r: Result<(), ActionServerError>)
    ensures
        r is Err <==> action_name@.len() == 0,
        r is Err ==> r == Err::<(), ActionServerError>(ActionServerError::EmptyActionName),
{
    if action_name.is_empty() {
        Err(ActionServerError::EmptyActionName)
    } else {
        Ok(())
    }
}

/// The names of the five endpoints of an action, by the ROS 2 conventions.
pub struct ActionEndpoints {
    pub goal_service: String,
    pub result_service: String,
    pub cancel_service: String,
    pub feedback_topic: String,
    pub status_topic: String,
}

fn suffixed(base: &str, suffix: &str) -> (r: String)
    ensures
        r@ == base@ + suffix@,
{
    let mut r = base.to_owned();
    r.append(suffix);
    r
}

impl ActionEndpoints {
    /// The endpoint names of the action with fully qualified name `qualified`.
    pub fn new(qualified: &str) -> (r: ActionEndpoints)
        ensures
            r.goal_service@ == qualified@ + "/_action/send_goal"@,
            r.result_service@ == qualified@ + "/_action/get_result"@,
            r.cancel_service@ == qualified@ + "/_action/cancel_goal"@,
            r.feedback_topic@ == qualified@ + "/_action/feedback"@,
            r.status_topic@ == qualified@ + "/_action/status"@,
    {
        ActionEndpoints {
            goal_service: suffixed(qualified, "/_action/send_goal"),
            result_service: suffixed(qualified, "/_action/get_result"),
            cancel_service: suffixed(qualified, "/_action/cancel_goal"),
            feedback_topic: suffixed(qualified, "/_action/feedback"),
            status_topic: suffixed(qualified, "/_action/status"),
        }
    }
}

} // verus!
