//! The broker session as the supervisor sees it: a connectivity latch fed by
//! the session's notifications, the presence topic, and what to hand to the
//! client when a session is opened or presence is announced.

use crate::config::Config;
use crate::text::starts_with;
use vstd::prelude::*;
use vstd::utf8::encode_utf8;

verus! {

/// Seconds between keep-alive probes of a session.
pub const KEEP_ALIVE_SECONDS: u64 = 15;

/// Delivery guarantee of a message.
#[derive(Clone, Copy, Debug, PartialEq, Eq, Structural)]
pub enum QoS {
    AtMostOnce,
    AtLeastOnce,
    ExactlyOnce,
}

/// Why the session could not be used.
#[derive(Clone, Copy, Debug, PartialEq, Eq, Structural)]
pub enum SessionError {
    /// No client has been created yet.
    ClientNotInitialized,
}

/// Connectivity of the session as last reported, and as the last read found
/// it.
///
/// The session's notifications write `is_connected`, the control loop reads.
/// Reading `was_connected` moves the latch on, so that a change of
/// connectivity from one read to the next is seen by exactly one read,
/// however many reports came in between.
#[derive(Clone, Copy, Debug, PartialEq, Eq, Structural)]
pub struct MqttConnectionStatus {
    pub is_connected: bool,
    pub was_connected: bool,
}

impl MqttConnectionStatus {
    /// A latch that has never seen a connection.
    pub fn new() -> (status: Self)
        ensures
            !status.is_connected,
            !status.was_connected,
    {
        MqttConnectionStatus { is_connected: false, was_connected: false }
    }

    /// The connectivity as the previous read found it; before the first read,
    /// as the latch was made. Reading moves the latch on: the next read
    /// returns the connectivity that this one found.
    pub fn was_connected(&mut self) -> (before: bool)
        ensures
            before == old(self).was_connected,
            final(self).was_connected == old(self).is_connected,
            final(self).is_connected == old(self).is_connected,
        no_unwind
    {
        let before = self.was_connected;
        self.was_connected = self.is_connected;
        before
    }

    /// Records a report of connectivity. What the previous read found is
    /// kept, so that reports between two reads do not hide a change from the
    /// next one.
    pub fn set_connected(&mut self, connected: bool)
        ensures
            final(self).is_connected == connected,
            final(self).was_connected == old(self).was_connected,
        no_unwind
    {
        self.is_connected = connected;
    }
}

/// What a notification says of the session's connectivity: up when its text
/// begins with `Connected`, down when it begins with `Disconnected`, nothing
/// otherwise.
pub open spec fn connectivity_in(text: Seq<char>) -> Option<bool> {
    if "Connected"@.is_prefix_of(text) {
        Some(true)
    } else if "Disconnected"@.is_prefix_of(text) {
        Some(false)
    } else {
        None
    }
}

/// Reads the connectivity out of a notification's text.
pub fn event_connectivity(text: &str) -> (connectivity: Option<bool>)
    ensures
        connectivity == connectivity_in(text@),
{
    if starts_with(text, "Connected") {
        Some(true)
    } else if starts_with(text, "Disconnected") {
        Some(false)
    } else {
        None
    }
}

/// The topic on which a node announces itself:
/// `<prefix>/binary_sensor/<node>/state`.
pub open spec fn presence_topic(prefix: Seq<char>, node: Seq<char>) -> Seq<char> {
    prefix + "/binary_sensor/"@ + node + "/state"@
}

/// The address of the broker on `host`: `mqtt://<host>`.
pub open spec fn broker_url(host: Seq<char>) -> Seq<char> {
    "mqtt://"@ + host
}

/// What to open a session with. The last will is what the broker publishes
/// for the node when the node vanishes without saying so.
#[derive(Clone, Debug)]
pub struct SessionRequest {
    pub broker_url: String,
    pub username: String,
    pub password: String,
    pub client_id: String,
    pub keep_alive_seconds: u64,
    pub lwt_topic: String,
    pub lwt_qos: QoS,
    pub lwt_retain: bool,
    pub lwt_payload: Vec<u8>,
}

/// One message to publish.
#[derive(Clone, Debug)]
pub struct PublishRequest {
    pub topic: String,
    pub qos: QoS,
    pub retain: bool,
    pub payload: Vec<u8>,
}

/// The broker session of one node.
#[derive(Clone, Debug)]
pub struct Mqtt {
    /// Whether a client has been created for this session.
    pub client_present: bool,
    /// The node's presence topic.
    pub topic: String,
    /// The payload that announces the node.
    pub on_payload: String,
    /// Connectivity as the session's notifications reported it.
    pub connection_status: MqttConnectionStatus,
}

impl Mqtt {
    /// A session that has no client yet and has never been connected.
    pub fn new(config: &Config) -> (session: Self)
        ensures
            !session.client_present,
            session.topic@ == presence_topic(config.mqtt_discovery_prefix@, config.mqtt_node@),
            session.on_payload@ == config.mqtt_on_payload@,
            !session.connection_status.is_connected,
            !session.connection_status.was_connected,
    {
        let mut topic = config.mqtt_discovery_prefix.clone();
        topic.append("/binary_sensor/");
        topic.append(config.mqtt_node.as_str());
        topic.append("/state");
        Mqtt {
            client_present: false,
            topic,
            on_payload: config.mqtt_on_payload.clone(),
            connection_status: MqttConnectionStatus::new(),
        }
    }

    /// Whether a client has been created.
    pub fn has_client(&self) -> (present: bool)
        ensures
            present == self.client_present,
    {
        self.client_present
    }

    /// What to create the client with: the broker's address, the node's
    /// credentials and identity, the keep-alive interval, and a last will
    /// that puts the off payload on the presence topic, delivered at least
    /// once and not retained.
    pub fn create_client(&self, config: &Config) -> (request: SessionRequest)
        ensures
            request.broker_url@ == broker_url(config.mqtt_host@),
            request.username@ == config.mqtt_user@,
            request.password@ == config.mqtt_pass@,
            request.client_id@ == config.mqtt_node@,
            request.keep_alive_seconds == KEEP_ALIVE_SECONDS,
            request.lwt_topic@ == self.topic@,
            request.lwt_qos == QoS::AtLeastOnce,
            !request.lwt_retain,
            request.lwt_payload@ == encode_utf8(config.mqtt_off_payload@),
    {
        let mut url = String::from_str("mqtt://");
        url.append(config.mqtt_host.as_str());
        SessionRequest {
            broker_url: url,
            username: config.mqtt_user.clone(),
            password: config.mqtt_pass.clone(),
            client_id: config.mqtt_node.clone(),
            keep_alive_seconds: KEEP_ALIVE_SECONDS,
            lwt_topic: self.topic.clone(),
            lwt_qos: QoS::AtLeastOnce,
            lwt_retain: false,
            lwt_payload: config.mqtt_off_payload.as_str().as_bytes_vec(),
        }
    }

    /// Records that the client now exists.
    pub fn client_created(&mut self)
        ensures
            final(self).client_present,
            final(self).topic == old(self).topic,
            final(self).on_payload == old(self).on_payload,
            final(self).connection_status == old(self).connection_status,
        no_unwind
    {
        self.client_present = true;
    }

    /// Takes in one notification of the session: a report of connectivity
    /// is recorded as the current one, anything else leaves the latch alone.
    /// What the previous read found stays as it is.
    pub fn handle_event(&mut self, text: &str)
        ensures
            final(self).client_present == old(self).client_present,
            final(self).topic == old(self).topic,
            final(self).on_payload == old(self).on_payload,
            final(self).connection_status == match connectivity_in(text@) {
                Some(connected) => (MqttConnectionStatus {
                    is_connected: connected,
                    was_connected: old(self).connection_status.was_connected,
                }),
                None => old(self).connection_status,
            },
    {
        match event_connectivity(text) {
            Some(connected) => {
                self.connection_status.set_connected(connected);
            },
            None => {},
        }
    }

    /// Whether the session is connected by the latest report.
    pub fn is_connected(&self) -> (connected: bool)
        ensures
            connected == self.connection_status.is_connected,
    {
        self.connection_status.is_connected
    }

    /// Whether the previous read found the session connected; moves the
    /// latch on as `MqttConnectionStatus::was_connected` does.
    pub fn was_connected(&mut self) -> (before: bool)
        ensures
            before == old(self).connection_status.was_connected,
            final(self).connection_status.was_connected == old(self).connection_status.is_connected,
            final(self).connection_status.is_connected == old(self).connection_status.is_connected,
            final(self).client_present == old(self).client_present,
            final(self).topic == old(self).topic,
            final(self).on_payload == old(self).on_payload,
        no_unwind
    {
        self.connection_status.was_connected()
    }

    /// What to do about announcing presence right now: nothing when the
    /// session has dropped since the announcement was decided on, else the
    /// message to send. Without a client there is nothing to publish with.
    pub fn announce(&self) -> (request: Result<Option<PublishRequest>, SessionError>)
        ensures
            request is Ok <==> self.client_present,
            request is Err ==> request->Err_0 == SessionError::ClientNotInitialized,
            request matches Ok(message) ==> (message is Some <==> self.connection_status.is_connected),
            request matches Ok(Some(message)) ==> {
                &&& message.topic@ == self.topic@
                &&& message.qos == QoS::AtLeastOnce
                &&& !message.retain
                &&& message.payload@ == encode_utf8(self.on_payload@)
            },
    {
        match self.publish() {
            Err(error) => Err(error),
            Ok(message) => {
                if self.connection_status.is_connected {
                    Ok(Some(message))
                } else {
                    Ok(None)
                }
            },
        }
    }

    /// The announcement of presence: the on payload on the presence topic,
    /// delivered at least once and not retained. Without a client there is
    /// nothing to publish with.
    pub fn publish(&self) -> (request: Result<PublishRequest, SessionError>)
        ensures
            request is Ok <==> self.client_present,
            request is Err ==> request->Err_0 == SessionError::ClientNotInitialized,
            request matches Ok(message) ==> {
                &&& message.topic@ == self.topic@
                &&& message.qos == QoS::AtLeastOnce
                &&& !message.retain
                &&& message.payload@ == encode_utf8(self.on_payload@)
            },
    {
        if !self.client_present {
            return Err(SessionError::ClientNotInitialized);
        }
        Ok(
            PublishRequest {
                topic: self.topic.clone(),
                qos: QoS::AtLeastOnce,
                retain: false,
                payload: self.on_payload.as_str().as_bytes_vec(),
            },
        )
    }
}

} // verus!
