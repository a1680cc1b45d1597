//! The SNS action: publishes a message to a topic.
use vstd::prelude::*;

use crate::action_builder::{ActionError, ActionErrorView};
use crate::actions::log::text_field;
use crate::decode::{
    complete_fields_spec, decode_record, decode_record_spec, defaulted_field, field_names,
    map_fields_spec, position, position_from, required_field, scan_entries_spec, schema_view,
    values_view, FieldKind, FieldSpecView, FieldValue, FieldValueView,
};
use crate::json::{DecodeErrorView, JsonValue};

verus! {

/// An SNS action: `topicArn`, with `region` (`us-west-2` when absent) and
/// `message` (empty when absent).
pub struct SnsV1 {
    topic_arn: String,
    region: String,
    message: String,
}

pub struct SnsV1View {
    pub topic_arn: Seq<char>,
    pub region: Seq<char>,
    pub message: Seq<char>,
}

impl View for SnsV1 {
    type V = SnsV1View;

    closed spec fn view(&self) -> SnsV1View {
        SnsV1View { topic_arn: self.topic_arn@, region: self.region@, message: self.message@ }
    }
}

/// The region a topic is in when the action names none.
pub open spec fn default_region_spec() -> Seq<char> {
    "us-west-2"@
}

/// The region a topic is in when the action names none.
pub fn default_region() -> (r: String)
    ensures
        r@ == default_region_spec(),
{
    String::from_str("us-west-2")
}

/// The fields of an SNS action.
pub open spec fn sns_schema() -> Seq<FieldSpecView> {
    seq![
        FieldSpecView { name: "topicArn"@, kind: FieldKind::Text, default: None },
        FieldSpecView { name: "region"@, kind: FieldKind::Text, default: Some(default_region_spec()) },
        FieldSpecView { name: "message"@, kind: FieldKind::Text, default: Some(Seq::empty()) },
    ]
}

/// What `SnsV1::init` gives for the attributes `v`.
pub open spec fn sns_v1_spec(v: JsonValue) -> Result<SnsV1View, ActionErrorView> {
    match decode_record_spec(v, "SnsV1"@, sns_schema()) {
        Err(e) => Err(ActionErrorView::ParseError(e)),
        Ok(fs) => Ok(
            SnsV1View {
                topic_arn: text_field(fs[0]),
                region: text_field(fs[1]),
                message: text_field(fs[2]),
            },
        ),
    }
}

pub open spec fn sns_result_view(r: Result<SnsV1, ActionError>) -> Result<SnsV1View, ActionErrorView> {
    match r {
        Ok(a) => Ok(a@),
        Err(e) => Err(e@),
    }
}

impl SnsV1 {
    /// Reads an SNS action from message attributes.
    pub fn init(attributes: &JsonValue) -> (r: Result<SnsV1, ActionError>)
        ensures
            sns_result_view(r) == sns_v1_spec(*attributes),
    {
        let mut schema = Vec::new();
        schema.push(required_field("topicArn", FieldKind::Text));
        schema.push(defaulted_field("region", "us-west-2"));
        schema.push(defaulted_field("message", ""));
        proof {
            reveal_strlit("");
            assert(""@ =~= Seq::<char>::empty());
            assert(schema_view(schema@)[2] == sns_schema()[2]);
        }
        assert(schema_view(schema@) =~= sns_schema());
        match decode_record(attributes, "SnsV1", &schema) {
            Err(e) => Err(ActionError::ParseError(e)),
            Ok(fields) => {
                let ghost fv = values_view(fields@);
                assert(fv[0] is Text && fv[1] is Text && fv[2] is Text);
                let mut fields = fields;
                let message = fields.pop();
                let region = fields.pop();
                let topic = fields.pop();
                match (topic, region, message) {
                    (
                        Some(FieldValue::Text(t)),
                        Some(FieldValue::Text(r)),
                        Some(FieldValue::Text(m)),
                    ) => Ok(SnsV1 { topic_arn: t, region: r, message: m }),
                    _ => vstd::pervasive::unreached(),
                }
            },
        }
    }

    /// The topic to publish to.
    pub fn topic_arn(&self) -> (r: &String)
        ensures
            r@ == self@.topic_arn,
    {
        &self.topic_arn
    }

    /// The region of the topic.
    pub fn region(&self) -> (r: &String)
        ensures
            r@ == self@.region,
    {
        &self.region
    }

    /// The message to publish.
    pub fn message(&self) -> (r: &String)
        ensures
            r@ == self@.message,
    {
        &self.message
    }
}

/// An object that gives only `topicArn` decodes to that topic, in the
/// default region, with an empty message.
pub proof fn sns_topic_only_takes_defaults(v: JsonValue)
    requires
        v is Object,
        v->Object_0@.len() == 1,
        v->Object_0@[0].0@ == "topicArn"@,
        v->Object_0@[0].1 is String,
    ensures
        sns_v1_spec(v) == Ok::<SnsV1View, ActionErrorView>(
            SnsV1View {
                topic_arn: v->Object_0@[0].1->String_0@,
                region: default_region_spec(),
                message: Seq::empty(),
            },
        ),
{
    reveal_strlit("topicArn");
    reveal_strlit("region");
    reveal_strlit("message");
    reveal_with_fuel(scan_entries_spec, 2);
    reveal_with_fuel(position_from, 4);
    reveal_with_fuel(complete_fields_spec, 4);
    let entries = v->Object_0@;
    let sv = sns_schema();
    assert(field_names(sv) =~= seq!["topicArn"@, "region"@, "message"@]);
    assert(position(field_names(sv), "topicArn"@) == 0);
    assert(map_fields_spec(entries, sv) is Ok);
}


/// An object that gives `topicArn` and `message` as strings, and no region,
/// decodes to that topic and that message, in region `us-west-2`.
pub proof fn sns_message_kept_with_default_region(v: JsonValue)
    requires
        v is Object,
        v->Object_0@.len() == 2,
        v->Object_0@[0].0@ == "topicArn"@,
        v->Object_0@[1].0@ == "message"@,
        v->Object_0@[0].1 is String,
        v->Object_0@[1].1 is String,
    ensures
        sns_v1_spec(v) == Ok::<SnsV1View, ActionErrorView>(
            SnsV1View {
                topic_arn: v->Object_0@[0].1->String_0@,
                region: "us-west-2"@,
                message: v->Object_0@[1].1->String_0@,
            },
        ),
{
    reveal_strlit("topicArn");
    reveal_strlit("region");
    reveal_strlit("message");
    reveal_with_fuel(scan_entries_spec, 3);
    reveal_with_fuel(position_from, 4);
    reveal_with_fuel(complete_fields_spec, 4);
    let entries = v->Object_0@;
    let sv = sns_schema();
    assert(field_names(sv) =~= seq!["topicArn"@, "region"@, "message"@]);
    assert("topicArn"@[0] != "message"@[0]);
    assert("region"@[0] != "message"@[0]);
    assert(position(field_names(sv), "topicArn"@) == 0);
    assert(position(field_names(sv), "message"@) == 2);
    assert(map_fields_spec(entries, sv) is Ok);
}

/// An object that gives `topicArn`, `region` and `message` as strings decodes
/// to exactly those three texts: the message does not depend on the region.
pub proof fn sns_object_keeps_all_fields(v: JsonValue)
    requires
        v is Object,
        v->Object_0@.len() == 3,
        v->Object_0@[0].0@ == "topicArn"@,
        v->Object_0@[1].0@ == "region"@,
        v->Object_0@[2].0@ == "message"@,
        v->Object_0@[0].1 is String,
        v->Object_0@[1].1 is String,
        v->Object_0@[2].1 is String,
    ensures
        sns_v1_spec(v) == Ok::<SnsV1View, ActionErrorView>(
            SnsV1View {
                topic_arn: v->Object_0@[0].1->String_0@,
                region: v->Object_0@[1].1->String_0@,
                message: v->Object_0@[2].1->String_0@,
            },
        ),
{
    reveal_strlit("topicArn");
    reveal_strlit("region");
    reveal_strlit("message");
    reveal_with_fuel(scan_entries_spec, 4);
    reveal_with_fuel(position_from, 4);
    reveal_with_fuel(complete_fields_spec, 4);
    let entries = v->Object_0@;
    let sv = sns_schema();
    assert(field_names(sv) =~= seq!["topicArn"@, "region"@, "message"@]);
    assert("topicArn"@[0] != "message"@[0]);
    assert("topicArn"@[0] != "region"@[0]);
    assert("region"@[0] != "message"@[0]);
    assert(position(field_names(sv), "topicArn"@) == 0);
    assert(position(field_names(sv), "region"@) == 1);
    assert(position(field_names(sv), "message"@) == 2);
    let none = Seq::new(sv.len(), |j: int| None::<FieldValueView>);
    let f1 = none.update(0, Some(FieldValueView::Text(entries[0].1->String_0@)));
    let f2 = f1.update(1, Some(FieldValueView::Text(entries[1].1->String_0@)));
    let f3 = f2.update(2, Some(FieldValueView::Text(entries[2].1->String_0@)));
    assert(scan_entries_spec(entries, sv, 3, f3) == Ok::<
        Seq<Option<FieldValueView>>,
        DecodeErrorView,
    >(f3));
    assert(scan_entries_spec(entries, sv, 2, f2) == scan_entries_spec(entries, sv, 3, f3));
    assert(scan_entries_spec(entries, sv, 1, f1) == scan_entries_spec(entries, sv, 2, f2));
    assert(scan_entries_spec(entries, sv, 0, none) == scan_entries_spec(entries, sv, 1, f1));
    assert(map_fields_spec(entries, sv) is Ok);
}

} // verus!
