use crate::json::Value;
use crate::shared::{arn_json, clone_opt, opt_view, ref_json, Id, RefView, RefWithIdView};
use crate::intrinsic::{get_arn, get_att, get_att_json, get_ref, string_value};

use vstd::prelude::*;

verus! {

/// A reference to a resource, which other resources use to depend on it.
pub struct AlarmRef {
    pub(crate) resource_id: String,
    pub(crate) ref_name: Option<String>,
    pub(crate) arn_value: Option<String>,
}

impl View for AlarmRef {
    type V = RefView;

    open(crate) spec fn view(&self) -> RefView {
        RefView {
            resource_id: self.resource_id@,
            ref_name: opt_view(self.ref_name),
            arn_value: opt_view(self.arn_value),
        }
    }
}

impl AlarmRef {
    pub(crate) fn internal_new(resource_id: String) -> (r: Self)
        ensures
            r@ == (RefView { resource_id: resource_id@, ref_name: None, arn_value: None }),
    {
        Self { resource_id, ref_name: None, arn_value: None }
    }

    /// A reference to a resource that exists outside the stack.
    pub fn new(resource_id: &str, ref_name: &str, arn_value: &str) -> (r: Self)
        ensures
            r@ == (RefView { resource_id: resource_id@, ref_name: Some(ref_name@), arn_value: Some(arn_value@) }),
    {
        Self {
            resource_id: String::from_str(resource_id),
            ref_name: Some(String::from_str(ref_name)),
            arn_value: Some(String::from_str(arn_value)),
        }
    }

    pub(crate) fn get_resource_id(&self) -> (r: &str)
        ensures
            r@ == self@.resource_id,
    {
        self.resource_id.as_str()
    }

    /// What `Ref` gives for the resource: the name it was imported with, or the intrinsic function.
    pub fn get_ref(&self) -> (r: Value)
        ensures
            r@ == ref_json(self@.resource_id, self@.ref_name),
    {
        match &self.ref_name {
            Some(val) => string_value(val.as_str()),
            None => get_ref(self.resource_id.as_str()),
        }
    }

    /// The ARN of the resource: the one it was imported with, or the intrinsic function.
    pub fn get_arn(&self) -> (r: Value)
        ensures
            r@ == arn_json(self@.resource_id, self@.arn_value),
    {
        match &self.arn_value {
            Some(val) => string_value(val.as_str()),
            None => get_arn(self.resource_id.as_str()),
        }
    }

    /// An attribute of the resource; not available for an imported resource.
    pub fn get_att(&self, id: &str) -> (r: Value)
        requires
            !(self@.ref_name is Some && self@.arn_value is Some),
        ensures
            r@ == get_att_json(self@.resource_id, id@),
    {
        get_att(self.resource_id.as_str(), id)
    }
}

impl Clone for AlarmRef {
    fn clone(&self) -> (r: Self)
        ensures
            r@ == self@,
    {
        Self {
            resource_id: self.resource_id.clone(),
            ref_name: clone_opt(&self.ref_name),
            arn_value: clone_opt(&self.arn_value),
        }
    }
}

/// A reference to a resource, which other resources use to depend on it.
pub struct AnomalyDetectorRef {
    pub(crate) resource_id: String,
    pub(crate) ref_name: Option<String>,
    pub(crate) arn_value: Option<String>,
}

impl View for AnomalyDetectorRef {
    type V = RefView;

    open(crate) spec fn view(&self) -> RefView {
        RefView {
            resource_id: self.resource_id@,
            ref_name: opt_view(self.ref_name),
            arn_value: opt_view(self.arn_value),
        }
    }
}

impl AnomalyDetectorRef {
    pub(crate) fn internal_new(resource_id: String) -> (r: Self)
        ensures
            r@ == (RefView { resource_id: resource_id@, ref_name: None, arn_value: None }),
    {
        Self { resource_id, ref_name: None, arn_value: None }
    }

    /// A reference to a resource that exists outside the stack.
    pub fn new(resource_id: &str, ref_name: &str, arn_value: &str) -> (r: Self)
        ensures
            r@ == (RefView { resource_id: resource_id@, ref_name: Some(ref_name@), arn_value: Some(arn_value@) }),
    {
        Self {
            resource_id: String::from_str(resource_id),
            ref_name: Some(String::from_str(ref_name)),
            arn_value: Some(String::from_str(arn_value)),
        }
    }

    pub(crate) fn get_resource_id(&self) -> (r: &str)
        ensures
            r@ == self@.resource_id,
    {
        self.resource_id.as_str()
    }

    /// What `Ref` gives for the resource: the name it was imported with, or the intrinsic function.
    pub fn get_ref(&self) -> (r: Value)
        ensures
            r@ == ref_json(self@.resource_id, self@.ref_name),
    {
        match &self.ref_name {
            Some(val) => string_value(val.as_str()),
            None => get_ref(self.resource_id.as_str()),
        }
    }

    /// The ARN of the resource: the one it was imported with, or the intrinsic function.
    pub fn get_arn(&self) -> (r: Value)
        ensures
            r@ == arn_json(self@.resource_id, self@.arn_value),
    {
        match &self.arn_value {
            Some(val) => string_value(val.as_str()),
            None => get_arn(self.resource_id.as_str()),
        }
    }

    /// An attribute of the resource; not available for an imported resource.
    pub fn get_att(&self, id: &str) -> (r: Value)
        requires
            !(self@.ref_name is Some && self@.arn_value is Some),
        ensures
            r@ == get_att_json(self@.resource_id, id@),
    {
        get_att(self.resource_id.as_str(), id)
    }
}

impl Clone for AnomalyDetectorRef {
    fn clone(&self) -> (r: Self)
        ensures
            r@ == self@,
    {
        Self {
            resource_id: self.resource_id.clone(),
            ref_name: clone_opt(&self.ref_name),
            arn_value: clone_opt(&self.arn_value),
        }
    }
}

/// A reference to a resource, which other resources use to depend on it.
pub struct CompositeAlarmRef {
    pub(crate) resource_id: String,
    pub(crate) ref_name: Option<String>,
    pub(crate) arn_value: Option<String>,
}

impl View for CompositeAlarmRef {
    type V = RefView;

    open(crate) spec fn view(&self) -> RefView {
        RefView {
            resource_id: self.resource_id@,
            ref_name: opt_view(self.ref_name),
            arn_value: opt_view(self.arn_value),
        }
    }
}

impl CompositeAlarmRef {
    pub(crate) fn internal_new(resource_id: String) -> (r: Self)
        ensures
            r@ == (RefView { resource_id: resource_id@, ref_name: None, arn_value: None }),
    {
        Self { resource_id, ref_name: None, arn_value: None }
    }

    /// A reference to a resource that exists outside the stack.
    pub fn new(resource_id: &str, ref_name: &str, arn_value: &str) -> (r: Self)
        ensures
            r@ == (RefView { resource_id: resource_id@, ref_name: Some(ref_name@), arn_value: Some(arn_value@) }),
    {
        Self {
            resource_id: String::from_str(resource_id),
            ref_name: Some(String::from_str(ref_name)),
            arn_value: Some(String::from_str(arn_value)),
        }
    }

    pub(crate) fn get_resource_id(&self) -> (r: &str)
        ensures
            r@ == self@.resource_id,
    {
        self.resource_id.as_str()
    }

    /// What `Ref` gives for the resource: the name it was imported with, or the intrinsic function.
    pub fn get_ref(&self) -> (r: Value)
        ensures
            r@ == ref_json(self@.resource_id, self@.ref_name),
    {
        match &self.ref_name {
            Some(val) => string_value(val.as_str()),
            None => get_ref(self.resource_id.as_str()),
        }
    }

    /// The ARN of the resource: the one it was imported with, or the intrinsic function.
    pub fn get_arn(&self) -> (r: Value)
        ensures
            r@ == arn_json(self@.resource_id, self@.arn_value),
    {
        match &self.arn_value {
            Some(val) => string_value(val.as_str()),
            None => get_arn(self.resource_id.as_str()),
        }
    }

    /// An attribute of the resource; not available for an imported resource.
    pub fn get_att(&self, id: &str) -> (r: Value)
        requires
            !(self@.ref_name is Some && self@.arn_value is Some),
        ensures
            r@ == get_att_json(self@.resource_id, id@),
    {
        get_att(self.resource_id.as_str(), id)
    }
}

impl Clone for CompositeAlarmRef {
    fn clone(&self) -> (r: Self)
        ensures
            r@ == self@,
    {
        Self {
            resource_id: self.resource_id.clone(),
            ref_name: clone_opt(&self.ref_name),
            arn_value: clone_opt(&self.arn_value),
        }
    }
}

/// A reference to a resource, which other resources use to depend on it.
pub struct DashboardRef {
    pub(crate) resource_id: String,
    pub(crate) ref_name: Option<String>,
    pub(crate) arn_value: Option<String>,
}

impl View for DashboardRef {
    type V = RefView;

    open(crate) spec fn view(&self) -> RefView {
        RefView {
            resource_id: self.resource_id@,
            ref_name: opt_view(self.ref_name),
            arn_value: opt_view(self.arn_value),
        }
    }
}

impl DashboardRef {
    pub(crate) fn internal_new(resource_id: String) -> (r: Self)
        ensures
            r@ == (RefView { resource_id: resource_id@, ref_name: None, arn_value: None }),
    {
        Self { resource_id, ref_name: None, arn_value: None }
    }

    /// A reference to a resource that exists outside the stack.
    pub fn new(resource_id: &str, ref_name: &str, arn_value: &str) -> (r: Self)
        ensures
            r@ == (RefView { resource_id: resource_id@, ref_name: Some(ref_name@), arn_value: Some(arn_value@) }),
    {
        Self {
            resource_id: String::from_str(resource_id),
            ref_name: Some(String::from_str(ref_name)),
            arn_value: Some(String::from_str(arn_value)),
        }
    }

    pub(crate) fn get_resource_id(&self) -> (r: &str)
        ensures
            r@ == self@.resource_id,
    {
        self.resource_id.as_str()
    }

    /// What `Ref` gives for the resource: the name it was imported with, or the intrinsic function.
    pub fn get_ref(&self) -> (r: Value)
        ensures
            r@ == ref_json(self@.resource_id, self@.ref_name),
    {
        match &self.ref_name {
            Some(val) => string_value(val.as_str()),
            None => get_ref(self.resource_id.as_str()),
        }
    }

    /// The ARN of the resource: the one it was imported with, or the intrinsic function.
    pub fn get_arn(&self) -> (r: Value)
        ensures
            r@ == arn_json(self@.resource_id, self@.arn_value),
    {
        match &self.arn_value {
            Some(val) => string_value(val.as_str()),
            None => get_arn(self.resource_id.as_str()),
        }
    }

    /// An attribute of the resource; not available for an imported resource.
    pub fn get_att(&self, id: &str) -> (r: Value)
        requires
            !(self@.ref_name is Some && self@.arn_value is Some),
        ensures
            r@ == get_att_json(self@.resource_id, id@),
    {
        get_att(self.resource_id.as_str(), id)
    }
}

impl Clone for DashboardRef {
    fn clone(&self) -> (r: Self)
        ensures
            r@ == self@,
    {
        Self {
            resource_id: self.resource_id.clone(),
            ref_name: clone_opt(&self.ref_name),
            arn_value: clone_opt(&self.arn_value),
        }
    }
}

/// A reference to a resource, which other resources use to depend on it.
pub struct InsightRuleRef {
    pub(crate) resource_id: String,
    pub(crate) ref_name: Option<String>,
    pub(crate) arn_value: Option<String>,
}

impl View for InsightRuleRef {
    type V = RefView;

    open(crate) spec fn view(&self) -> RefView {
        RefView {
            resource_id: self.resource_id@,
            ref_name: opt_view(self.ref_name),
            arn_value: opt_view(self.arn_value),
        }
    }
}

impl InsightRuleRef {
    pub(crate) fn internal_new(resource_id: String) -> (r: Self)
        ensures
            r@ == (RefView { resource_id: resource_id@, ref_name: None, arn_value: None }),
    {
        Self { resource_id, ref_name: None, arn_value: None }
    }

    /// A reference to a resource that exists outside the stack.
    pub fn new(resource_id: &str, ref_name: &str, arn_value: &str) -> (r: Self)
        ensures
            r@ == (RefView { resource_id: resource_id@, ref_name: Some(ref_name@), arn_value: Some(arn_value@) }),
    {
        Self {
            resource_id: String::from_str(resource_id),
            ref_name: Some(String::from_str(ref_name)),
            arn_value: Some(String::from_str(arn_value)),
        }
    }

    pub(crate) fn get_resource_id(&self) -> (r: &str)
        ensures
            r@ == self@.resource_id,
    {
        self.resource_id.as_str()
    }

    /// What `Ref` gives for the resource: the name it was imported with, or the intrinsic function.
    pub fn get_ref(&self) -> (r: Value)
        ensures
            r@ == ref_json(self@.resource_id, self@.ref_name),
    {
        match &self.ref_name {
            Some(val) => string_value(val.as_str()),
            None => get_ref(self.resource_id.as_str()),
        }
    }

    /// The ARN of the resource: the one it was imported with, or the intrinsic function.
    pub fn get_arn(&self) -> (r: Value)
        ensures
            r@ == arn_json(self@.resource_id, self@.arn_value),
    {
        match &self.arn_value {
            Some(val) => string_value(val.as_str()),
            None => get_arn(self.resource_id.as_str()),
        }
    }

    /// An attribute of the resource; not available for an imported resource.
    pub fn get_att(&self, id: &str) -> (r: Value)
        requires
            !(self@.ref_name is Some && self@.arn_value is Some),
        ensures
            r@ == get_att_json(self@.resource_id, id@),
    {
        get_att(self.resource_id.as_str(), id)
    }
}

impl Clone for InsightRuleRef {
    fn clone(&self) -> (r: Self)
        ensures
            r@ == self@,
    {
        Self {
            resource_id: self.resource_id.clone(),
            ref_name: clone_opt(&self.ref_name),
            arn_value: clone_opt(&self.arn_value),
        }
    }
}

/// A reference to a resource, which other resources use to depend on it.
pub struct MetricStreamRef {
    pub(crate) resource_id: String,
    pub(crate) ref_name: Option<String>,
    pub(crate) arn_value: Option<String>,
}

impl View for MetricStreamRef {
    type V = RefView;

    open(crate) spec fn view(&self) -> RefView {
        RefView {
            resource_id: self.resource_id@,
            ref_name: opt_view(self.ref_name),
            arn_value: opt_view(self.arn_value),
        }
    }
}

impl MetricStreamRef {
    pub(crate) fn internal_new(resource_id: String) -> (r: Self)
        ensures
            r@ == (RefView { resource_id: resource_id@, ref_name: None, arn_value: None }),
    {
        Self { resource_id, ref_name: None, arn_value: None }
    }

    /// A reference to a resource that exists outside the stack.
    pub fn new(resource_id: &str, ref_name: &str, arn_value: &str) -> (r: Self)
        ensures
            r@ == (RefView { resource_id: resource_id@, ref_name: Some(ref_name@), arn_value: Some(arn_value@) }),
    {
        Self {
            resource_id: String::from_str(resource_id),
            ref_name: Some(String::from_str(ref_name)),
            arn_value: Some(String::from_str(arn_value)),
        }
    }

    pub(crate) fn get_resource_id(&self) -> (r: &str)
        ensures
            r@ == self@.resource_id,
    {
        self.resource_id.as_str()
    }

    /// What `Ref` gives for the resource: the name it was imported with, or the intrinsic function.
    pub fn get_ref(&self) -> (r: Value)
        ensures
            r@ == ref_json(self@.resource_id, self@.ref_name),
    {
        match &self.ref_name {
            Some(val) => string_value(val.as_str()),
            None => get_ref(self.resource_id.as_str()),
        }
    }

    /// The ARN of the resource: the one it was imported with, or the intrinsic function.
    pub fn get_arn(&self) -> (r: Value)
        ensures
            r@ == arn_json(self@.resource_id, self@.arn_value),
    {
        match &self.arn_value {
            Some(val) => string_value(val.as_str()),
            None => get_arn(self.resource_id.as_str()),
        }
    }

    /// An attribute of the resource; not available for an imported resource.
    pub fn get_att(&self, id: &str) -> (r: Value)
        requires
            !(self@.ref_name is Some && self@.arn_value is Some),
        ensures
            r@ == get_att_json(self@.resource_id, id@),
    {
        get_att(self.resource_id.as_str(), id)
    }
}

impl Clone for MetricStreamRef {
    fn clone(&self) -> (r: Self)
        ensures
            r@ == self@,
    {
        Self {
            resource_id: self.resource_id.clone(),
            ref_name: clone_opt(&self.ref_name),
            arn_value: clone_opt(&self.arn_value),
        }
    }
}

/// A CloudWatch Alarm resource.
pub struct Alarm {
    pub(crate) id: Id,
    pub(crate) resource_id: String,
    pub(crate) resource_type: String,
    pub(crate) properties: AlarmProperties,
}

/// What a [`Alarm`] holds.
pub struct AlarmView {
    pub id: Id,
    pub resource_id: String,
    pub resource_type: String,
    pub properties: AlarmProperties,
}

impl View for Alarm {
    type V = AlarmView;

    open(crate) spec fn view(&self) -> AlarmView {
        AlarmView {
            id: self.id,
            resource_id: self.resource_id,
            resource_type: self.resource_type,
            properties: self.properties,
        }
    }
}

impl Alarm {
    pub fn get_id(&self) -> (r: &Id)
        ensures
            *r == self@.id,
    {
        &self.id
    }

    pub fn get_resource_id(&self) -> (r: &str)
        ensures
            r@ == self@.resource_id@,
    {
        self.resource_id.as_str()
    }

    pub fn get_type(&self) -> (r: &str)
        ensures
            r@ == self@.resource_type@,
    {
        self.resource_type.as_str()
    }
}

/// The properties of a CloudWatch Alarm.
pub struct AlarmProperties {
    pub(crate) threshold_metric_id: Option<String>,
    pub(crate) actions_enabled: Option<bool>,
    pub(crate) period: Option<u32>,
    pub(crate) extended_statistic: Option<String>,
    pub(crate) datapoints_to_alarm: Option<u32>,
    pub(crate) statistic: Option<String>,
    pub(crate) metric_name: Option<String>,
    pub(crate) comparison_operator: String,
    pub(crate) evaluation_periods: u32,
    pub(crate) dimensions: Option<Vec<Dimension>>,
    pub(crate) namespace: Option<String>,
    pub(crate) alarm_description: Option<String>,
    pub(crate) evaluate_low_sample_count_percentile: Option<String>,
    pub(crate) threshold: Option<u32>,
    pub(crate) treat_missing_data: Option<String>,
    pub(crate) alarm_name: Option<String>,
    pub(crate) unit: Option<String>,
    pub(crate) metrics: Option<Vec<MetricDataQuery>>,
    pub(crate) alarm_actions: Option<Vec<String>>,
    pub(crate) insufficient_data_actions: Option<Vec<String>>,
    pub(crate) ok_actions: Option<Vec<String>>,
}

/// What a [`AlarmProperties`] holds.
pub struct AlarmPropertiesView {
    pub threshold_metric_id: Option<String>,
    pub actions_enabled: Option<bool>,
    pub period: Option<u32>,
    pub extended_statistic: Option<String>,
    pub datapoints_to_alarm: Option<u32>,
    pub statistic: Option<String>,
    pub metric_name: Option<String>,
    pub comparison_operator: String,
    pub evaluation_periods: u32,
    pub dimensions: Option<Vec<Dimension>>,
    pub namespace: Option<String>,
    pub alarm_description: Option<String>,
    pub evaluate_low_sample_count_percentile: Option<String>,
    pub threshold: Option<u32>,
    pub treat_missing_data: Option<String>,
    pub alarm_name: Option<String>,
    pub unit: Option<String>,
    pub metrics: Option<Vec<MetricDataQuery>>,
    pub alarm_actions: Option<Vec<String>>,
    pub insufficient_data_actions: Option<Vec<String>>,
    pub ok_actions: Option<Vec<String>>,
}

impl View for AlarmProperties {
    type V = AlarmPropertiesView;

    open(crate) spec fn view(&self) -> AlarmPropertiesView {
        AlarmPropertiesView {
            threshold_metric_id: self.threshold_metric_id,
            actions_enabled: self.actions_enabled,
            period: self.period,
            extended_statistic: self.extended_statistic,
            datapoints_to_alarm: self.datapoints_to_alarm,
            statistic: self.statistic,
            metric_name: self.metric_name,
            comparison_operator: self.comparison_operator,
            evaluation_periods: self.evaluation_periods,
            dimensions: self.dimensions,
            namespace: self.namespace,
            alarm_description: self.alarm_description,
            evaluate_low_sample_count_percentile: self.evaluate_low_sample_count_percentile,
            threshold: self.threshold,
            treat_missing_data: self.treat_missing_data,
            alarm_name: self.alarm_name,
            unit: self.unit,
            metrics: self.metrics,
            alarm_actions: self.alarm_actions,
            insufficient_data_actions: self.insufficient_data_actions,
            ok_actions: self.ok_actions,
        }
    }
}

/// A CloudWatch AnomalyDetector resource.
pub struct AnomalyDetector {
    pub(crate) id: Id,
    pub(crate) resource_id: String,
    pub(crate) resource_type: String,
    pub(crate) properties: AnomalyDetectorProperties,
}

/// What a [`AnomalyDetector`] holds.
pub struct AnomalyDetectorView {
    pub id: Id,
    pub resource_id: String,
    pub resource_type: String,
    pub properties: AnomalyDetectorProperties,
}

impl View for AnomalyDetector {
    type V = AnomalyDetectorView;

    open(crate) spec fn view(&self) -> AnomalyDetectorView {
        AnomalyDetectorView {
            id: self.id,
            resource_id: self.resource_id,
            resource_type: self.resource_type,
            properties: self.properties,
        }
    }
}

impl AnomalyDetector {
    pub fn get_id(&self) -> (r: &Id)
        ensures
            *r == self@.id,
    {
        &self.id
    }

    pub fn get_resource_id(&self) -> (r: &str)
        ensures
            r@ == self@.resource_id@,
    {
        self.resource_id.as_str()
    }

    pub fn get_type(&self) -> (r: &str)
        ensures
            r@ == self@.resource_type@,
    {
        self.resource_type.as_str()
    }
}

/// The properties of a CloudWatch AnomalyDetector.
pub struct AnomalyDetectorProperties {
    pub(crate) dimensions: Option<Vec<Dimension>>,
    pub(crate) namespace: Option<String>,
    pub(crate) metric_name: Option<String>,
    pub(crate) metric_characteristics: Option<MetricCharacteristics>,
    pub(crate) metric_math_anomaly_detector: Option<MetricMathAnomalyDetector>,
    pub(crate) configuration: Option<Configuration>,
    pub(crate) single_metric_anomaly_detector: Option<SingleMetricAnomalyDetector>,
    pub(crate) stat: Option<String>,
}

/// What a [`AnomalyDetectorProperties`] holds.
pub struct AnomalyDetectorPropertiesView {
    pub dimensions: Option<Vec<Dimension>>,
    pub namespace: Option<String>,
    pub metric_name: Option<String>,
    pub metric_characteristics: Option<MetricCharacteristics>,
    pub metric_math_anomaly_detector: Option<MetricMathAnomalyDetector>,
    pub configuration: Option<Configuration>,
    pub single_metric_anomaly_detector: Option<SingleMetricAnomalyDetector>,
    pub stat: Option<String>,
}

impl View for AnomalyDetectorProperties {
    type V = AnomalyDetectorPropertiesView;

    open(crate) spec fn view(&self) -> AnomalyDetectorPropertiesView {
        AnomalyDetectorPropertiesView {
            dimensions: self.dimensions,
            namespace: self.namespace,
            metric_name: self.metric_name,
            metric_characteristics: self.metric_characteristics,
            metric_math_anomaly_detector: self.metric_math_anomaly_detector,
            configuration: self.configuration,
            single_metric_anomaly_detector: self.single_metric_anomaly_detector,
            stat: self.stat,
        }
    }
}

/// A CloudWatch CompositeAlarm resource.
pub struct CompositeAlarm {
    pub(crate) id: Id,
    pub(crate) resource_id: String,
    pub(crate) resource_type: String,
    pub(crate) properties: CompositeAlarmProperties,
}

/// What a [`CompositeAlarm`] holds.
pub struct CompositeAlarmView {
    pub id: Id,
    pub resource_id: String,
    pub resource_type: String,
    pub properties: CompositeAlarmProperties,
}

impl View for CompositeAlarm {
    type V = CompositeAlarmView;

    open(crate) spec fn view(&self) -> CompositeAlarmView {
        CompositeAlarmView {
            id: self.id,
            resource_id: self.resource_id,
            resource_type: self.resource_type,
            properties: self.properties,
        }
    }
}

impl CompositeAlarm {
    pub fn get_id(&self) -> (r: &Id)
        ensures
            *r == self@.id,
    {
        &self.id
    }

    pub fn get_resource_id(&self) -> (r: &str)
        ensures
            r@ == self@.resource_id@,
    {
        self.resource_id.as_str()
    }

    pub fn get_type(&self) -> (r: &str)
        ensures
            r@ == self@.resource_type@,
    {
        self.resource_type.as_str()
    }
}

/// The properties of a CloudWatch CompositeAlarm.
pub struct CompositeAlarmProperties {
    pub(crate) alarm_description: Option<String>,
    pub(crate) insufficient_data_actions: Option<Vec<String>>,
    pub(crate) ok_actions: Option<Vec<String>>,
    pub(crate) alarm_name: Option<String>,
    pub(crate) actions_suppressor_wait_period: Option<u32>,
    pub(crate) actions_suppressor: Option<String>,
    pub(crate) alarm_actions: Option<Vec<String>>,
    pub(crate) alarm_rule: String,
    pub(crate) actions_suppressor_extension_period: Option<u32>,
    pub(crate) actions_enabled: Option<bool>,
}

/// What a [`CompositeAlarmProperties`] holds.
pub struct CompositeAlarmPropertiesView {
    pub alarm_description: Option<String>,
    pub insufficient_data_actions: Option<Vec<String>>,
    pub ok_actions: Option<Vec<String>>,
    pub alarm_name: Option<String>,
    pub actions_suppressor_wait_period: Option<u32>,
    pub actions_suppressor: Option<String>,
    pub alarm_actions: Option<Vec<String>>,
    pub alarm_rule: String,
    pub actions_suppressor_extension_period: Option<u32>,
    pub actions_enabled: Option<bool>,
}

impl View for CompositeAlarmProperties {
    type V = CompositeAlarmPropertiesView;

    open(crate) spec fn view(&self) -> CompositeAlarmPropertiesView {
        CompositeAlarmPropertiesView {
            alarm_description: self.alarm_description,
            insufficient_data_actions: self.insufficient_data_actions,
            ok_actions: self.ok_actions,
            alarm_name: self.alarm_name,
            actions_suppressor_wait_period: self.actions_suppressor_wait_period,
            actions_suppressor: self.actions_suppressor,
            alarm_actions: self.alarm_actions,
            alarm_rule: self.alarm_rule,
            actions_suppressor_extension_period: self.actions_suppressor_extension_period,
            actions_enabled: self.actions_enabled,
        }
    }
}

/// A CloudWatch Dashboard resource.
pub struct Dashboard {
    pub(crate) id: Id,
    pub(crate) resource_id: String,
    pub(crate) resource_type: String,
    pub(crate) properties: DashboardProperties,
}

/// What a [`Dashboard`] holds.
pub struct DashboardView {
    pub id: Id,
    pub resource_id: String,
    pub resource_type: String,
    pub properties: DashboardProperties,
}

impl View for Dashboard {
    type V = DashboardView;

    open(crate) spec fn view(&self) -> DashboardView {
        DashboardView {
            id: self.id,
            resource_id: self.resource_id,
            resource_type: self.resource_type,
            properties: self.properties,
        }
    }
}

impl Dashboard {
    pub fn get_id(&self) -> (r: &Id)
        ensures
            *r == self@.id,
    {
        &self.id
    }

    pub fn get_resource_id(&self) -> (r: &str)
        ensures
            r@ == self@.resource_id@,
    {
        self.resource_id.as_str()
    }

    pub fn get_type(&self) -> (r: &str)
        ensures
            r@ == self@.resource_type@,
    {
        self.resource_type.as_str()
    }
}

/// The properties of a CloudWatch Dashboard.
pub struct DashboardProperties {
    pub(crate) dashboard_body: String,
    pub(crate) dashboard_name: Option<String>,
}

/// What a [`DashboardProperties`] holds.
pub struct DashboardPropertiesView {
    pub dashboard_body: String,
    pub dashboard_name: Option<String>,
}

impl View for DashboardProperties {
    type V = DashboardPropertiesView;

    open(crate) spec fn view(&self) -> DashboardPropertiesView {
        DashboardPropertiesView {
            dashboard_body: self.dashboard_body,
            dashboard_name: self.dashboard_name,
        }
    }
}

/// A CloudWatch InsightRule resource.
pub struct InsightRule {
    pub(crate) id: Id,
    pub(crate) resource_id: String,
    pub(crate) resource_type: String,
    pub(crate) properties: InsightRuleProperties,
}

/// What a [`InsightRule`] holds.
pub struct InsightRuleView {
    pub id: Id,
    pub resource_id: String,
    pub resource_type: String,
    pub properties: InsightRuleProperties,
}

impl View for InsightRule {
    type V = InsightRuleView;

    open(crate) spec fn view(&self) -> InsightRuleView {
        InsightRuleView {
            id: self.id,
            resource_id: self.resource_id,
            resource_type: self.resource_type,
            properties: self.properties,
        }
    }
}

impl InsightRule {
    pub fn get_id(&self) -> (r: &Id)
        ensures
            *r == self@.id,
    {
        &self.id
    }

    pub fn get_resource_id(&self) -> (r: &str)
        ensures
            r@ == self@.resource_id@,
    {
        self.resource_id.as_str()
    }

    pub fn get_type(&self) -> (r: &str)
        ensures
            r@ == self@.resource_type@,
    {
        self.resource_type.as_str()
    }
}

/// The properties of a CloudWatch InsightRule.
pub struct InsightRuleProperties {
    pub(crate) apply_on_transformed_logs: Option<bool>,
    pub(crate) rule_name: String,
    pub(crate) rule_body: String,
    pub(crate) rule_state: String,
}

/// What a [`InsightRuleProperties`] holds.
pub struct InsightRulePropertiesView {
    pub apply_on_transformed_logs: Option<bool>,
    pub rule_name: String,
    pub rule_body: String,
    pub rule_state: String,
}

impl View for InsightRuleProperties {
    type V = InsightRulePropertiesView;

    open(crate) spec fn view(&self) -> InsightRulePropertiesView {
        InsightRulePropertiesView {
            apply_on_transformed_logs: self.apply_on_transformed_logs,
            rule_name: self.rule_name,
            rule_body: self.rule_body,
            rule_state: self.rule_state,
        }
    }
}

/// A CloudWatch MetricStream resource.
pub struct MetricStream {
    pub(crate) id: Id,
    pub(crate) resource_id: String,
    pub(crate) resource_type: String,
    pub(crate) properties: MetricStreamProperties,
}

/// What a [`MetricStream`] holds.
pub struct MetricStreamView {
    pub id: Id,
    pub resource_id: String,
    pub resource_type: String,
    pub properties: MetricStreamProperties,
}

impl View for MetricStream {
    type V = MetricStreamView;

    open(crate) spec fn view(&self) -> MetricStreamView {
        MetricStreamView {
            id: self.id,
            resource_id: self.resource_id,
            resource_type: self.resource_type,
            properties: self.properties,
        }
    }
}

impl MetricStream {
    pub fn get_id(&self) -> (r: &Id)
        ensures
            *r == self@.id,
    {
        &self.id
    }

    pub fn get_resource_id(&self) -> (r: &str)
        ensures
            r@ == self@.resource_id@,
    {
        self.resource_id.as_str()
    }

    pub fn get_type(&self) -> (r: &str)
        ensures
            r@ == self@.resource_type@,
    {
        self.resource_type.as_str()
    }
}

/// The properties of a CloudWatch MetricStream.
pub struct MetricStreamProperties {
    pub(crate) include_linked_accounts_metrics: Option<bool>,
    pub(crate) firehose_arn: Option<String>,
    pub(crate) include_filters: Option<Vec<MetricStreamFilter>>,
    pub(crate) role_arn: Option<String>,
    pub(crate) output_format: Option<String>,
    pub(crate) name: Option<String>,
    pub(crate) statistics_configurations: Option<Vec<MetricStreamStatisticsConfiguration>>,
    pub(crate) exclude_filters: Option<Vec<MetricStreamFilter>>,
}

/// What a [`MetricStreamProperties`] holds.
pub struct MetricStreamPropertiesView {
    pub include_linked_accounts_metrics: Option<bool>,
    pub firehose_arn: Option<String>,
    pub include_filters: Option<Vec<MetricStreamFilter>>,
    pub role_arn: Option<String>,
    pub output_format: Option<String>,
    pub name: Option<String>,
    pub statistics_configurations: Option<Vec<MetricStreamStatisticsConfiguration>>,
    pub exclude_filters: Option<Vec<MetricStreamFilter>>,
}

impl View for MetricStreamProperties {
    type V = MetricStreamPropertiesView;

    open(crate) spec fn view(&self) -> MetricStreamPropertiesView {
        MetricStreamPropertiesView {
            include_linked_accounts_metrics: self.include_linked_accounts_metrics,
            firehose_arn: self.firehose_arn,
            include_filters: self.include_filters,
            role_arn: self.role_arn,
            output_format: self.output_format,
            name: self.name,
            statistics_configurations: self.statistics_configurations,
            exclude_filters: self.exclude_filters,
        }
    }
}

/// A Dimension, as part of a CloudWatch resource.
pub struct Dimension {
    pub(crate) value: String,
    pub(crate) name: String,
}

/// What a [`Dimension`] holds.
pub struct DimensionView {
    pub value: String,
    pub name: String,
}

impl View for Dimension {
    type V = DimensionView;

    open(crate) spec fn view(&self) -> DimensionView {
        DimensionView {
            value: self.value,
            name: self.name,
        }
    }
}

/// A MetricDataQuery, as part of a CloudWatch resource.
pub struct MetricDataQuery {
    pub(crate) return_data: Option<bool>,
    pub(crate) expression: Option<String>,
    pub(crate) id: String,
    pub(crate) period: Option<u32>,
    pub(crate) label: Option<String>,
    pub(crate) account_id: Option<String>,
    pub(crate) metric_stat: Option<MetricStat>,
}

/// What a [`MetricDataQuery`] holds.
pub struct MetricDataQueryView {
    pub return_data: Option<bool>,
    pub expression: Option<String>,
    pub id: String,
    pub period: Option<u32>,
    pub label: Option<String>,
    pub account_id: Option<String>,
    pub metric_stat: Option<MetricStat>,
}

impl View for MetricDataQuery {
    type V = MetricDataQueryView;

    open(crate) spec fn view(&self) -> MetricDataQueryView {
        MetricDataQueryView {
            return_data: self.return_data,
            expression: self.expression,
            id: self.id,
            period: self.period,
            label: self.label,
            account_id: self.account_id,
            metric_stat: self.metric_stat,
        }
    }
}

/// A Tag, as part of a CloudWatch resource.
pub struct Tag {
    pub(crate) value: String,
    pub(crate) key: String,
}

/// What a [`Tag`] holds.
pub struct TagView {
    pub value: String,
    pub key: String,
}

impl View for Tag {
    type V = TagView;

    open(crate) spec fn view(&self) -> TagView {
        TagView {
            value: self.value,
            key: self.key,
        }
    }
}

/// A Configuration, as part of a CloudWatch resource.
pub struct Configuration {
    pub(crate) excluded_time_ranges: Option<Vec<Range>>,
    pub(crate) metric_time_zone: Option<String>,
}

/// What a [`Configuration`] holds.
pub struct ConfigurationView {
    pub excluded_time_ranges: Option<Vec<Range>>,
    pub metric_time_zone: Option<String>,
}

impl View for Configuration {
    type V = ConfigurationView;

    open(crate) spec fn view(&self) -> ConfigurationView {
        ConfigurationView {
            excluded_time_ranges: self.excluded_time_ranges,
            metric_time_zone: self.metric_time_zone,
        }
    }
}

/// A MetricCharacteristics, as part of a CloudWatch resource.
pub struct MetricCharacteristics {
    pub(crate) periodic_spikes: Option<bool>,
}

/// What a [`MetricCharacteristics`] holds.
pub struct MetricCharacteristicsView {
    pub periodic_spikes: Option<bool>,
}

impl View for MetricCharacteristics {
    type V = MetricCharacteristicsView;

    open(crate) spec fn view(&self) -> MetricCharacteristicsView {
        MetricCharacteristicsView {
            periodic_spikes: self.periodic_spikes,
        }
    }
}

/// A MetricMathAnomalyDetector, as part of a CloudWatch resource.
pub struct MetricMathAnomalyDetector {
    pub(crate) metric_data_queries: Option<Vec<MetricDataQuery>>,
}

/// What a [`MetricMathAnomalyDetector`] holds.
pub struct MetricMathAnomalyDetectorView {
    pub metric_data_queries: Option<Vec<MetricDataQuery>>,
}

impl View for MetricMathAnomalyDetector {
    type V = MetricMathAnomalyDetectorView;

    open(crate) spec fn view(&self) -> MetricMathAnomalyDetectorView {
        MetricMathAnomalyDetectorView {
            metric_data_queries: self.metric_data_queries,
        }
    }
}

/// A SingleMetricAnomalyDetector, as part of a CloudWatch resource.
pub struct SingleMetricAnomalyDetector {
    pub(crate) namespace: Option<String>,
    pub(crate) stat: Option<String>,
    pub(crate) dimensions: Option<Vec<Dimension>>,
    pub(crate) account_id: Option<String>,
    pub(crate) metric_name: Option<String>,
}

/// What a [`SingleMetricAnomalyDetector`] holds.
pub struct SingleMetricAnomalyDetectorView {
    pub namespace: Option<String>,
    pub stat: Option<String>,
    pub dimensions: Option<Vec<Dimension>>,
    pub account_id: Option<String>,
    pub metric_name: Option<String>,
}

impl View for SingleMetricAnomalyDetector {
    type V = SingleMetricAnomalyDetectorView;

    open(crate) spec fn view(&self) -> SingleMetricAnomalyDetectorView {
        SingleMetricAnomalyDetectorView {
            namespace: self.namespace,
            stat: self.stat,
            dimensions: self.dimensions,
            account_id: self.account_id,
            metric_name: self.metric_name,
        }
    }
}

/// A MetricStreamFilter, as part of a CloudWatch resource.
pub struct MetricStreamFilter {
    pub(crate) metric_names: Option<Vec<String>>,
    pub(crate) namespace: String,
}

/// What a [`MetricStreamFilter`] holds.
pub struct MetricStreamFilterView {
    pub metric_names: Option<Vec<String>>,
    pub namespace: String,
}

impl View for MetricStreamFilter {
    type V = MetricStreamFilterView;

    open(crate) spec fn view(&self) -> MetricStreamFilterView {
        MetricStreamFilterView {
            metric_names: self.metric_names,
            namespace: self.namespace,
        }
    }
}

/// A MetricStreamStatisticsConfiguration, as part of a CloudWatch resource.
pub struct MetricStreamStatisticsConfiguration {
    pub(crate) additional_statistics: Vec<String>,
    pub(crate) include_metrics: Vec<MetricStreamStatisticsMetric>,
}

/// What a [`MetricStreamStatisticsConfiguration`] holds.
pub struct MetricStreamStatisticsConfigurationView {
    pub additional_statistics: Vec<String>,
    pub include_metrics: Vec<MetricStreamStatisticsMetric>,
}

impl View for MetricStreamStatisticsConfiguration {
    type V = MetricStreamStatisticsConfigurationView;

    open(crate) spec fn view(&self) -> MetricStreamStatisticsConfigurationView {
        MetricStreamStatisticsConfigurationView {
            additional_statistics: self.additional_statistics,
            include_metrics: self.include_metrics,
        }
    }
}

/// A MetricStat, as part of a CloudWatch resource.
pub struct MetricStat {
    pub(crate) period: u32,
    pub(crate) unit: Option<String>,
    pub(crate) metric: Metric,
    pub(crate) stat: String,
}

/// What a [`MetricStat`] holds.
pub struct MetricStatView {
    pub period: u32,
    pub unit: Option<String>,
    pub metric: Metric,
    pub stat: String,
}

impl View for MetricStat {
    type V = MetricStatView;

    open(crate) spec fn view(&self) -> MetricStatView {
        MetricStatView {
            period: self.period,
            unit: self.unit,
            metric: self.metric,
            stat: self.stat,
        }
    }
}

/// A Range, as part of a CloudWatch resource.
pub struct Range {
    pub(crate) end_time: String,
    pub(crate) start_time: String,
}

/// What a [`Range`] holds.
pub struct RangeView {
    pub end_time: String,
    pub start_time: String,
}

impl View for Range {
    type V = RangeView;

    open(crate) spec fn view(&self) -> RangeView {
        RangeView {
            end_time: self.end_time,
            start_time: self.start_time,
        }
    }
}

/// A MetricStreamStatisticsMetric, as part of a CloudWatch resource.
pub struct MetricStreamStatisticsMetric {
    pub(crate) metric_name: String,
    pub(crate) namespace: String,
}

/// What a [`MetricStreamStatisticsMetric`] holds.
pub struct MetricStreamStatisticsMetricView {
    pub metric_name: String,
    pub namespace: String,
}

impl View for MetricStreamStatisticsMetric {
    type V = MetricStreamStatisticsMetricView;

    open(crate) spec fn view(&self) -> MetricStreamStatisticsMetricView {
        MetricStreamStatisticsMetricView {
            metric_name: self.metric_name,
            namespace: self.namespace,
        }
    }
}

/// A Metric, as part of a CloudWatch resource.
pub struct Metric {
    pub(crate) metric_name: Option<String>,
    pub(crate) dimensions: Option<Vec<Dimension>>,
    pub(crate) namespace: Option<String>,
}

/// What a [`Metric`] holds.
pub struct MetricView {
    pub metric_name: Option<String>,
    pub dimensions: Option<Vec<Dimension>>,
    pub namespace: Option<String>,
}

impl View for Metric {
    type V = MetricView;

    open(crate) spec fn view(&self) -> MetricView {
        MetricView {
            metric_name: self.metric_name,
            dimensions: self.dimensions,
            namespace: self.namespace,
        }
    }
}

} // verus!
