//! What a client receives.

use vstd::prelude::*;

verus! {

/// `mountain_mqtt::data::quality_of_service::QualityOfService`, carried through unread.
#[verifier::external_type_specification]
#[verifier::external_body]
pub struct ExQualityOfService(mountain_mqtt::data::quality_of_service::QualityOfService);

/// `mountain_mqtt::data::property::PublishProperty`, carried through unread.
#[verifier::external_type_specification]
#[verifier::external_body]
pub struct ExPublishProperty<'a>(mountain_mqtt::data::property::PublishProperty<'a>);

/// `heapless::Vec`: a list of at most `N` items.
#[verifier::external_type_specification]
#[verifier::external_body]
#[verifier::reject_recursive_types(T)]
pub struct ExHeaplessVec<T, const N: usize>(heapless::Vec<T, N>);

/// The parts of a publish packet that matter to an application.
#[derive(Debug, PartialEq)]
pub struct ApplicationMessage<'a, const P: usize> {
    /// The topic that the message was published to.
    pub topic_name: &'a str,

    /// The content of the message.
    pub payload: &'a [u8],

    /// The quality of service with which the message came.
    pub qos: mountain_mqtt::data::quality_of_service::QualityOfService,

    /// Whether the server had retained the message.
    pub retain: bool,

    /// The properties of the publish packet.
    pub properties: heapless::Vec<mountain_mqtt::data::property::PublishProperty<'a>, P>,
}

/// What a client state makes of a received packet.
#[derive(Debug, PartialEq)]
pub enum ClientStateReceiveEvent<'a, const P: usize> {
    /// The packet acknowledges an earlier packet of the client.
    Ack,

    /// A message was published.
    Publish { publish: ApplicationMessage<'a, P> },

    /// A message was published, and has to be acknowledged to the server.
    PublishAndPuback { publish: ApplicationMessage<'a, P> },

    /// A subscription was granted, at a lower quality of service than requested.
    SubscriptionGrantedBelowMaximumQos {
        granted_qos: mountain_mqtt::data::quality_of_service::QualityOfService,
        maximum_qos: mountain_mqtt::data::quality_of_service::QualityOfService,
    },

    /// A published message reached the server, which had nobody to pass it on to.
    PublishedMessageHadNoMatchingSubscribers,

    /// The server was asked to end a subscription that it did not know.
    NoSubscriptionExisted,

    /// The server disconnects the client, for the given reason.
    Disconnect { reason_code: mountain_mqtt::data::reason_code::DisconnectReasonCode },
}

/// What a client reports of a received packet.
#[derive(Debug, PartialEq)]
pub enum ClientReceivedEvent<'a, const P: usize> {
    /// A message was published to a topic that the client subscribed to.
    ApplicationMessage(ApplicationMessage<'a, P>),

    /// The server acknowledged an earlier packet of the client.
    Ack,

    /// A subscription was granted, at a lower quality of service than requested.
    SubscriptionGrantedBelowMaximumQos {
        granted_qos: mountain_mqtt::data::quality_of_service::QualityOfService,
        maximum_qos: mountain_mqtt::data::quality_of_service::QualityOfService,
    },

    /// A published message reached the server, which had nobody to pass it on to.
    PublishedMessageHadNoMatchingSubscribers,

    /// The server was asked to end a subscription that it did not know.
    NoSubscriptionExisted,
}

} // verus!
