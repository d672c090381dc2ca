use crate::cloudwatch::{
    Alarm, AlarmProperties, AlarmRef, AnomalyDetector, AnomalyDetectorProperties, AnomalyDetectorRef, CompositeAlarm,
    CompositeAlarmProperties, CompositeAlarmRef, Configuration, ConfigurationView, Dashboard, DashboardProperties, DashboardRef,
    Dimension, DimensionView, InsightRule, InsightRuleProperties, InsightRuleRef, Metric, MetricCharacteristics,
    MetricCharacteristicsView, MetricDataQuery, MetricDataQueryView, MetricMathAnomalyDetector, MetricMathAnomalyDetectorView,
    MetricStat, MetricStatView, MetricStream, MetricStreamFilter, MetricStreamFilterView, MetricStreamProperties,
    MetricStreamRef, MetricStreamStatisticsConfiguration, MetricStreamStatisticsConfigurationView, MetricStreamStatisticsMetric,
    MetricStreamStatisticsMetricView, MetricView, Range, RangeView, SingleMetricAnomalyDetector, SingleMetricAnomalyDetectorView,
    Tag, TagView, AlarmPropertiesView, AnomalyDetectorPropertiesView, CompositeAlarmPropertiesView,
    DashboardPropertiesView, InsightRulePropertiesView, MetricStreamPropertiesView,
};
use crate::shared::Id;
use crate::stack::{is_generated_id, Resource, StackBuilder, StackBuilderView};
use vstd::prelude::*;

verus! {

/// Builder for a CloudWatch Alarm.
pub struct AlarmBuilder {
    pub(crate) id: Id,
    pub(crate) threshold_metric_id: Option<String>,
    pub(crate) actions_enabled: Option<bool>,
    pub(crate) period: Option<u32>,
    pub(crate) extended_statistic: Option<String>,
    pub(crate) datapoints_to_alarm: Option<u32>,
    pub(crate) statistic: Option<String>,
    pub(crate) metric_name: Option<String>,
    pub(crate) comparison_operator: String,
    pub(crate) evaluation_periods: u32,
    pub(crate) dimensions: Option<Vec<Dimension>>,
    pub(crate) namespace: Option<String>,
    pub(crate) alarm_description: Option<String>,
    pub(crate) evaluate_low_sample_count_percentile: Option<String>,
    pub(crate) threshold: Option<u32>,
    pub(crate) treat_missing_data: Option<String>,
    pub(crate) alarm_name: Option<String>,
    pub(crate) unit: Option<String>,
    pub(crate) metrics: Option<Vec<MetricDataQuery>>,
    pub(crate) alarm_actions: Option<Vec<String>>,
    pub(crate) insufficient_data_actions: Option<Vec<String>>,
    pub(crate) ok_actions: Option<Vec<String>>,
}

/// What a [`AlarmBuilder`] holds.
pub struct AlarmBuilderView {
    pub id: Id,
    pub threshold_metric_id: Option<String>,
    pub actions_enabled: Option<bool>,
    pub period: Option<u32>,
    pub extended_statistic: Option<String>,
    pub datapoints_to_alarm: Option<u32>,
    pub statistic: Option<String>,
    pub metric_name: Option<String>,
    pub comparison_operator: String,
    pub evaluation_periods: u32,
    pub dimensions: Option<Vec<Dimension>>,
    pub namespace: Option<String>,
    pub alarm_description: Option<String>,
    pub evaluate_low_sample_count_percentile: Option<String>,
    pub threshold: Option<u32>,
    pub treat_missing_data: Option<String>,
    pub alarm_name: Option<String>,
    pub unit: Option<String>,
    pub metrics: Option<Vec<MetricDataQuery>>,
    pub alarm_actions: Option<Vec<String>>,
    pub insufficient_data_actions: Option<Vec<String>>,
    pub ok_actions: Option<Vec<String>>,
}

impl View for AlarmBuilder {
    type V = AlarmBuilderView;

    open(crate) spec fn view(&self) -> AlarmBuilderView {
        AlarmBuilderView {
            id: self.id,
            threshold_metric_id: self.threshold_metric_id,
            actions_enabled: self.actions_enabled,
            period: self.period,
            extended_statistic: self.extended_statistic,
            datapoints_to_alarm: self.datapoints_to_alarm,
            statistic: self.statistic,
            metric_name: self.metric_name,
            comparison_operator: self.comparison_operator,
            evaluation_periods: self.evaluation_periods,
            dimensions: self.dimensions,
            namespace: self.namespace,
            alarm_description: self.alarm_description,
            evaluate_low_sample_count_percentile: self.evaluate_low_sample_count_percentile,
            threshold: self.threshold,
            treat_missing_data: self.treat_missing_data,
            alarm_name: self.alarm_name,
            unit: self.unit,
            metrics: self.metrics,
            alarm_actions: self.alarm_actions,
            insufficient_data_actions: self.insufficient_data_actions,
            ok_actions: self.ok_actions,
        }
    }
}

impl AlarmBuilder {
    pub fn new(id: &str, comparison_operator: String, evaluation_periods: u32) -> (r: Self)
        ensures
            r@.id.0@ == id@,
            r@.threshold_metric_id is None,
            r@.actions_enabled is None,
            r@.period is None,
            r@.extended_statistic is None,
            r@.datapoints_to_alarm is None,
            r@.statistic is None,
            r@.metric_name is None,
            r@.comparison_operator == comparison_operator,
            r@.evaluation_periods == evaluation_periods,
            r@.dimensions is None,
            r@.namespace is None,
            r@.alarm_description is None,
            r@.evaluate_low_sample_count_percentile is None,
            r@.threshold is None,
            r@.treat_missing_data is None,
            r@.alarm_name is None,
            r@.unit is None,
            r@.metrics is None,
            r@.alarm_actions is None,
            r@.insufficient_data_actions is None,
            r@.ok_actions is None,
    {
        Self {
            id: Id(String::from_str(id)),
            threshold_metric_id: None,
            actions_enabled: None,
            period: None,
            extended_statistic: None,
            datapoints_to_alarm: None,
            statistic: None,
            metric_name: None,
            comparison_operator,
            evaluation_periods,
            dimensions: None,
            namespace: None,
            alarm_description: None,
            evaluate_low_sample_count_percentile: None,
            threshold: None,
            treat_missing_data: None,
            alarm_name: None,
            unit: None,
            metrics: None,
            alarm_actions: None,
            insufficient_data_actions: None,
            ok_actions: None,
        }
    }

    pub fn threshold_metric_id(self, threshold_metric_id: String) -> (r: Self)
        ensures
            r@ == (AlarmBuilderView { threshold_metric_id: Some(threshold_metric_id), ..self@ }),
    {
        Self {
            threshold_metric_id: Some(threshold_metric_id),
            ..self
        }
    }

    pub fn actions_enabled(self, actions_enabled: bool) -> (r: Self)
        ensures
            r@ == (AlarmBuilderView { actions_enabled: Some(actions_enabled), ..self@ }),
    {
        Self {
            actions_enabled: Some(actions_enabled),
            ..self
        }
    }

    pub fn period(self, period: u32) -> (r: Self)
        ensures
            r@ == (AlarmBuilderView { period: Some(period), ..self@ }),
    {
        Self {
            period: Some(period),
            ..self
        }
    }

    pub fn extended_statistic(self, extended_statistic: String) -> (r: Self)
        ensures
            r@ == (AlarmBuilderView { extended_statistic: Some(extended_statistic), ..self@ }),
    {
        Self {
            extended_statistic: Some(extended_statistic),
            ..self
        }
    }

    pub fn datapoints_to_alarm(self, datapoints_to_alarm: u32) -> (r: Self)
        ensures
            r@ == (AlarmBuilderView { datapoints_to_alarm: Some(datapoints_to_alarm), ..self@ }),
    {
        Self {
            datapoints_to_alarm: Some(datapoints_to_alarm),
            ..self
        }
    }

    pub fn statistic(self, statistic: String) -> (r: Self)
        ensures
            r@ == (AlarmBuilderView { statistic: Some(statistic), ..self@ }),
    {
        Self {
            statistic: Some(statistic),
            ..self
        }
    }

    pub fn metric_name(self, metric_name: String) -> (r: Self)
        ensures
            r@ == (AlarmBuilderView { metric_name: Some(metric_name), ..self@ }),
    {
        Self {
            metric_name: Some(metric_name),
            ..self
        }
    }

    pub fn dimensions(self, dimensions: Vec<Dimension>) -> (r: Self)
        ensures
            r@ == (AlarmBuilderView { dimensions: Some(dimensions), ..self@ }),
    {
        Self {
            dimensions: Some(dimensions),
            ..self
        }
    }

    pub fn namespace(self, namespace: String) -> (r: Self)
        ensures
            r@ == (AlarmBuilderView { namespace: Some(namespace), ..self@ }),
    {
        Self {
            namespace: Some(namespace),
            ..self
        }
    }

    pub fn alarm_description(self, alarm_description: String) -> (r: Self)
        ensures
            r@ == (AlarmBuilderView { alarm_description: Some(alarm_description), ..self@ }),
    {
        Self {
            alarm_description: Some(alarm_description),
            ..self
        }
    }

    pub fn evaluate_low_sample_count_percentile(self, evaluate_low_sample_count_percentile: String) -> (r: Self)
        ensures
            r@ == (AlarmBuilderView { evaluate_low_sample_count_percentile: Some(evaluate_low_sample_count_percentile), ..self@ }),
    {
        Self {
            evaluate_low_sample_count_percentile: Some(evaluate_low_sample_count_percentile),
            ..self
        }
    }

    pub fn threshold(self, threshold: u32) -> (r: Self)
        ensures
            r@ == (AlarmBuilderView { threshold: Some(threshold), ..self@ }),
    {
        Self {
            threshold: Some(threshold),
            ..self
        }
    }

    pub fn treat_missing_data(self, treat_missing_data: String) -> (r: Self)
        ensures
            r@ == (AlarmBuilderView { treat_missing_data: Some(treat_missing_data), ..self@ }),
    {
        Self {
            treat_missing_data: Some(treat_missing_data),
            ..self
        }
    }

    pub fn alarm_name(self, alarm_name: String) -> (r: Self)
        ensures
            r@ == (AlarmBuilderView { alarm_name: Some(alarm_name), ..self@ }),
    {
        Self {
            alarm_name: Some(alarm_name),
            ..self
        }
    }

    pub fn unit(self, unit: String) -> (r: Self)
        ensures
            r@ == (AlarmBuilderView { unit: Some(unit), ..self@ }),
    {
        Self {
            unit: Some(unit),
            ..self
        }
    }

    pub fn metrics(self, metrics: Vec<MetricDataQuery>) -> (r: Self)
        ensures
            r@ == (AlarmBuilderView { metrics: Some(metrics), ..self@ }),
    {
        Self {
            metrics: Some(metrics),
            ..self
        }
    }

    pub fn alarm_actions(self, alarm_actions: Vec<String>) -> (r: Self)
        ensures
            r@ == (AlarmBuilderView { alarm_actions: Some(alarm_actions), ..self@ }),
    {
        Self {
            alarm_actions: Some(alarm_actions),
            ..self
        }
    }

    pub fn insufficient_data_actions(self, insufficient_data_actions: Vec<String>) -> (r: Self)
        ensures
            r@ == (AlarmBuilderView { insufficient_data_actions: Some(insufficient_data_actions), ..self@ }),
    {
        Self {
            insufficient_data_actions: Some(insufficient_data_actions),
            ..self
        }
    }

    pub fn ok_actions(self, ok_actions: Vec<String>) -> (r: Self)
        ensures
            r@ == (AlarmBuilderView { ok_actions: Some(ok_actions), ..self@ }),
    {
        Self {
            ok_actions: Some(ok_actions),
            ..self
        }
    }

    /// Adds the Alarm to the stack, with the builder's settings as its properties.
    pub fn build(self, stack_builder: &mut StackBuilder) -> (r: AlarmRef)
        ensures
            final(stack_builder)@ == (StackBuilderView {
                resources: old(stack_builder)@.resources.push(final(stack_builder)@.resources.last()),
                ..old(stack_builder)@
            }),
            final(stack_builder)@.resources.last() matches Resource::Alarm(a) && {
                &&& a@.id == self@.id
                &&& a@.resource_id@ == r@.resource_id
                &&& a@.resource_type@ == "AWS::CloudWatch::Alarm"@
                &&& a@.properties@ == (AlarmPropertiesView {
                    threshold_metric_id: self@.threshold_metric_id,
                    actions_enabled: self@.actions_enabled,
                    period: self@.period,
                    extended_statistic: self@.extended_statistic,
                    datapoints_to_alarm: self@.datapoints_to_alarm,
                    statistic: self@.statistic,
                    metric_name: self@.metric_name,
                    comparison_operator: self@.comparison_operator,
                    evaluation_periods: self@.evaluation_periods,
                    dimensions: self@.dimensions,
                    namespace: self@.namespace,
                    alarm_description: self@.alarm_description,
                    evaluate_low_sample_count_percentile: self@.evaluate_low_sample_count_percentile,
                    threshold: self@.threshold,
                    treat_missing_data: self@.treat_missing_data,
                    alarm_name: self@.alarm_name,
                    unit: self@.unit,
                    metrics: self@.metrics,
                    alarm_actions: self@.alarm_actions,
                    insufficient_data_actions: self@.insufficient_data_actions,
                    ok_actions: self@.ok_actions,
                })
            },
            is_generated_id(r@.resource_id, "Alarm"@),
            r@.ref_name is None,
            r@.arn_value is None,
    {
        let resource_id = Resource::generate_id("Alarm");
        let resource = Alarm {
            id: self.id,
            resource_id: resource_id.clone(),
            resource_type: String::from_str("AWS::CloudWatch::Alarm"),
            properties: AlarmProperties {
                threshold_metric_id: self.threshold_metric_id,
                actions_enabled: self.actions_enabled,
                period: self.period,
                extended_statistic: self.extended_statistic,
                datapoints_to_alarm: self.datapoints_to_alarm,
                statistic: self.statistic,
                metric_name: self.metric_name,
                comparison_operator: self.comparison_operator,
                evaluation_periods: self.evaluation_periods,
                dimensions: self.dimensions,
                namespace: self.namespace,
                alarm_description: self.alarm_description,
                evaluate_low_sample_count_percentile: self.evaluate_low_sample_count_percentile,
                threshold: self.threshold,
                treat_missing_data: self.treat_missing_data,
                alarm_name: self.alarm_name,
                unit: self.unit,
                metrics: self.metrics,
                alarm_actions: self.alarm_actions,
                insufficient_data_actions: self.insufficient_data_actions,
                ok_actions: self.ok_actions,
            },
        };
        stack_builder.add_resource(Resource::Alarm(resource));
        AlarmRef::internal_new(resource_id)
    }
}

/// Builder for a CloudWatch AnomalyDetector.
pub struct AnomalyDetectorBuilder {
    pub(crate) id: Id,
    pub(crate) dimensions: Option<Vec<Dimension>>,
    pub(crate) namespace: Option<String>,
    pub(crate) metric_name: Option<String>,
    pub(crate) metric_characteristics: Option<MetricCharacteristics>,
    pub(crate) metric_math_anomaly_detector: Option<MetricMathAnomalyDetector>,
    pub(crate) configuration: Option<Configuration>,
    pub(crate) single_metric_anomaly_detector: Option<SingleMetricAnomalyDetector>,
    pub(crate) stat: Option<String>,
}

/// What a [`AnomalyDetectorBuilder`] holds.
pub struct AnomalyDetectorBuilderView {
    pub id: Id,
    pub dimensions: Option<Vec<Dimension>>,
    pub namespace: Option<String>,
    pub metric_name: Option<String>,
    pub metric_characteristics: Option<MetricCharacteristics>,
    pub metric_math_anomaly_detector: Option<MetricMathAnomalyDetector>,
    pub configuration: Option<Configuration>,
    pub single_metric_anomaly_detector: Option<SingleMetricAnomalyDetector>,
    pub stat: Option<String>,
}

impl View for AnomalyDetectorBuilder {
    type V = AnomalyDetectorBuilderView;

    open(crate) spec fn view(&self) -> AnomalyDetectorBuilderView {
        AnomalyDetectorBuilderView {
            id: self.id,
            dimensions: self.dimensions,
            namespace: self.namespace,
            metric_name: self.metric_name,
            metric_characteristics: self.metric_characteristics,
            metric_math_anomaly_detector: self.metric_math_anomaly_detector,
            configuration: self.configuration,
            single_metric_anomaly_detector: self.single_metric_anomaly_detector,
            stat: self.stat,
        }
    }
}

impl AnomalyDetectorBuilder {
    pub fn new(id: &str) -> (r: Self)
        ensures
            r@.id.0@ == id@,
            r@.dimensions is None,
            r@.namespace is None,
            r@.metric_name is None,
            r@.metric_characteristics is None,
            r@.metric_math_anomaly_detector is None,
            r@.configuration is None,
            r@.single_metric_anomaly_detector is None,
            r@.stat is None,
    {
        Self {
            id: Id(String::from_str(id)),
            dimensions: None,
            namespace: None,
            metric_name: None,
            metric_characteristics: None,
            metric_math_anomaly_detector: None,
            configuration: None,
            single_metric_anomaly_detector: None,
            stat: None,
        }
    }

    pub fn dimensions(self, dimensions: Vec<Dimension>) -> (r: Self)
        ensures
            r@ == (AnomalyDetectorBuilderView { dimensions: Some(dimensions), ..self@ }),
    {
        Self {
            dimensions: Some(dimensions),
            ..self
        }
    }

    pub fn namespace(self, namespace: String) -> (r: Self)
        ensures
            r@ == (AnomalyDetectorBuilderView { namespace: Some(namespace), ..self@ }),
    {
        Self {
            namespace: Some(namespace),
            ..self
        }
    }

    pub fn metric_name(self, metric_name: String) -> (r: Self)
        ensures
            r@ == (AnomalyDetectorBuilderView { metric_name: Some(metric_name), ..self@ }),
    {
        Self {
            metric_name: Some(metric_name),
            ..self
        }
    }

    pub fn metric_characteristics(self, metric_characteristics: MetricCharacteristics) -> (r: Self)
        ensures
            r@ == (AnomalyDetectorBuilderView { metric_characteristics: Some(metric_characteristics), ..self@ }),
    {
        Self {
            metric_characteristics: Some(metric_characteristics),
            ..self
        }
    }

    pub fn metric_math_anomaly_detector(self, metric_math_anomaly_detector: MetricMathAnomalyDetector) -> (r: Self)
        ensures
            r@ == (AnomalyDetectorBuilderView { metric_math_anomaly_detector: Some(metric_math_anomaly_detector), ..self@ }),
    {
        Self {
            metric_math_anomaly_detector: Some(metric_math_anomaly_detector),
            ..self
        }
    }

    pub fn configuration(self, configuration: Configuration) -> (r: Self)
        ensures
            r@ == (AnomalyDetectorBuilderView { configuration: Some(configuration), ..self@ }),
    {
        Self {
            configuration: Some(configuration),
            ..self
        }
    }

    pub fn single_metric_anomaly_detector(self, single_metric_anomaly_detector: SingleMetricAnomalyDetector) -> (r: Self)
        ensures
            r@ == (AnomalyDetectorBuilderView { single_metric_anomaly_detector: Some(single_metric_anomaly_detector), ..self@ }),
    {
        Self {
            single_metric_anomaly_detector: Some(single_metric_anomaly_detector),
            ..self
        }
    }

    pub fn stat(self, stat: String) -> (r: Self)
        ensures
            r@ == (AnomalyDetectorBuilderView { stat: Some(stat), ..self@ }),
    {
        Self {
            stat: Some(stat),
            ..self
        }
    }

    /// Adds the AnomalyDetector to the stack, with the builder's settings as its properties.
    pub fn build(self, stack_builder: &mut StackBuilder) -> (r: AnomalyDetectorRef)
        ensures
            final(stack_builder)@ == (StackBuilderView {
                resources: old(stack_builder)@.resources.push(final(stack_builder)@.resources.last()),
                ..old(stack_builder)@
            }),
            final(stack_builder)@.resources.last() matches Resource::AnomalyDetector(a) && {
                &&& a@.id == self@.id
                &&& a@.resource_id@ == r@.resource_id
                &&& a@.resource_type@ == "AWS::CloudWatch::AnomalyDetector"@
                &&& a@.properties@ == (AnomalyDetectorPropertiesView {
                    dimensions: self@.dimensions,
                    namespace: self@.namespace,
                    metric_name: self@.metric_name,
                    metric_characteristics: self@.metric_characteristics,
                    metric_math_anomaly_detector: self@.metric_math_anomaly_detector,
                    configuration: self@.configuration,
                    single_metric_anomaly_detector: self@.single_metric_anomaly_detector,
                    stat: self@.stat,
                })
            },
            is_generated_id(r@.resource_id, "AnomalyDetector"@),
            r@.ref_name is None,
            r@.arn_value is None,
    {
        let resource_id = Resource::generate_id("AnomalyDetector");
        let resource = AnomalyDetector {
            id: self.id,
            resource_id: resource_id.clone(),
            resource_type: String::from_str("AWS::CloudWatch::AnomalyDetector"),
            properties: AnomalyDetectorProperties {
                dimensions: self.dimensions,
                namespace: self.namespace,
                metric_name: self.metric_name,
                metric_characteristics: self.metric_characteristics,
                metric_math_anomaly_detector: self.metric_math_anomaly_detector,
                configuration: self.configuration,
                single_metric_anomaly_detector: self.single_metric_anomaly_detector,
                stat: self.stat,
            },
        };
        stack_builder.add_resource(Resource::AnomalyDetector(resource));
        AnomalyDetectorRef::internal_new(resource_id)
    }
}

/// Builder for a CloudWatch CompositeAlarm.
pub struct CompositeAlarmBuilder {
    pub(crate) id: Id,
    pub(crate) alarm_description: Option<String>,
    pub(crate) insufficient_data_actions: Option<Vec<String>>,
    pub(crate) ok_actions: Option<Vec<String>>,
    pub(crate) alarm_name: Option<String>,
    pub(crate) actions_suppressor_wait_period: Option<u32>,
    pub(crate) actions_suppressor: Option<String>,
    pub(crate) alarm_actions: Option<Vec<String>>,
    pub(crate) alarm_rule: String,
    pub(crate) actions_suppressor_extension_period: Option<u32>,
    pub(crate) actions_enabled: Option<bool>,
}

/// What a [`CompositeAlarmBuilder`] holds.
pub struct CompositeAlarmBuilderView {
    pub id: Id,
    pub alarm_description: Option<String>,
    pub insufficient_data_actions: Option<Vec<String>>,
    pub ok_actions: Option<Vec<String>>,
    pub alarm_name: Option<String>,
    pub actions_suppressor_wait_period: Option<u32>,
    pub actions_suppressor: Option<String>,
    pub alarm_actions: Option<Vec<String>>,
    pub alarm_rule: String,
    pub actions_suppressor_extension_period: Option<u32>,
    pub actions_enabled: Option<bool>,
}

impl View for CompositeAlarmBuilder {
    type V = CompositeAlarmBuilderView;

    open(crate) spec fn view(&self) -> CompositeAlarmBuilderView {
        CompositeAlarmBuilderView {
            id: self.id,
            alarm_description: self.alarm_description,
            insufficient_data_actions: self.insufficient_data_actions,
            ok_actions: self.ok_actions,
            alarm_name: self.alarm_name,
            actions_suppressor_wait_period: self.actions_suppressor_wait_period,
            actions_suppressor: self.actions_suppressor,
            alarm_actions: self.alarm_actions,
            alarm_rule: self.alarm_rule,
            actions_suppressor_extension_period: self.actions_suppressor_extension_period,
            actions_enabled: self.actions_enabled,
        }
    }
}

impl CompositeAlarmBuilder {
    pub fn new(id: &str, alarm_rule: String) -> (r: Self)
        ensures
            r@.id.0@ == id@,
            r@.alarm_description is None,
            r@.insufficient_data_actions is None,
            r@.ok_actions is None,
            r@.alarm_name is None,
            r@.actions_suppressor_wait_period is None,
            r@.actions_suppressor is None,
            r@.alarm_actions is None,
            r@.alarm_rule == alarm_rule,
            r@.actions_suppressor_extension_period is None,
            r@.actions_enabled is None,
    {
        Self {
            id: Id(String::from_str(id)),
            alarm_description: None,
            insufficient_data_actions: None,
            ok_actions: None,
            alarm_name: None,
            actions_suppressor_wait_period: None,
            actions_suppressor: None,
            alarm_actions: None,
            alarm_rule,
            actions_suppressor_extension_period: None,
            actions_enabled: None,
        }
    }

    pub fn alarm_description(self, alarm_description: String) -> (r: Self)
        ensures
            r@ == (CompositeAlarmBuilderView { alarm_description: Some(alarm_description), ..self@ }),
    {
        Self {
            alarm_description: Some(alarm_description),
            ..self
        }
    }

    pub fn insufficient_data_actions(self, insufficient_data_actions: Vec<String>) -> (r: Self)
        ensures
            r@ == (CompositeAlarmBuilderView { insufficient_data_actions: Some(insufficient_data_actions), ..self@ }),
    {
        Self {
            insufficient_data_actions: Some(insufficient_data_actions),
            ..self
        }
    }

    pub fn ok_actions(self, ok_actions: Vec<String>) -> (r: Self)
        ensures
            r@ == (CompositeAlarmBuilderView { ok_actions: Some(ok_actions), ..self@ }),
    {
        Self {
            ok_actions: Some(ok_actions),
            ..self
        }
    }

    pub fn alarm_name(self, alarm_name: String) -> (r: Self)
        ensures
            r@ == (CompositeAlarmBuilderView { alarm_name: Some(alarm_name), ..self@ }),
    {
        Self {
            alarm_name: Some(alarm_name),
            ..self
        }
    }

    pub fn actions_suppressor_wait_period(self, actions_suppressor_wait_period: u32) -> (r: Self)
        ensures
            r@ == (CompositeAlarmBuilderView { actions_suppressor_wait_period: Some(actions_suppressor_wait_period), ..self@ }),
    {
        Self {
            actions_suppressor_wait_period: Some(actions_suppressor_wait_period),
            ..self
        }
    }

    pub fn actions_suppressor(self, actions_suppressor: String) -> (r: Self)
        ensures
            r@ == (CompositeAlarmBuilderView { actions_suppressor: Some(actions_suppressor), ..self@ }),
    {
        Self {
            actions_suppressor: Some(actions_suppressor),
            ..self
        }
    }

    pub fn alarm_actions(self, alarm_actions: Vec<String>) -> (r: Self)
        ensures
            r@ == (CompositeAlarmBuilderView { alarm_actions: Some(alarm_actions), ..self@ }),
    {
        Self {
            alarm_actions: Some(alarm_actions),
            ..self
        }
    }

    pub fn actions_suppressor_extension_period(self, actions_suppressor_extension_period: u32) -> (r: Self)
        ensures
            r@ == (CompositeAlarmBuilderView { actions_suppressor_extension_period: Some(actions_suppressor_extension_period), ..self@ }),
    {
        Self {
            actions_suppressor_extension_period: Some(actions_suppressor_extension_period),
            ..self
        }
    }

    pub fn actions_enabled(self, actions_enabled: bool) -> (r: Self)
        ensures
            r@ == (CompositeAlarmBuilderView { actions_enabled: Some(actions_enabled), ..self@ }),
    {
        Self {
            actions_enabled: Some(actions_enabled),
            ..self
        }
    }

    /// Adds the CompositeAlarm to the stack, with the builder's settings as its properties.
    pub fn build(self, stack_builder: &mut StackBuilder) -> (r: CompositeAlarmRef)
        ensures
            final(stack_builder)@ == (StackBuilderView {
                resources: old(stack_builder)@.resources.push(final(stack_builder)@.resources.last()),
                ..old(stack_builder)@
            }),
            final(stack_builder)@.resources.last() matches Resource::CompositeAlarm(a) && {
                &&& a@.id == self@.id
                &&& a@.resource_id@ == r@.resource_id
                &&& a@.resource_type@ == "AWS::CloudWatch::CompositeAlarm"@
                &&& a@.properties@ == (CompositeAlarmPropertiesView {
                    alarm_description: self@.alarm_description,
                    insufficient_data_actions: self@.insufficient_data_actions,
                    ok_actions: self@.ok_actions,
                    alarm_name: self@.alarm_name,
                    actions_suppressor_wait_period: self@.actions_suppressor_wait_period,
                    actions_suppressor: self@.actions_suppressor,
                    alarm_actions: self@.alarm_actions,
                    alarm_rule: self@.alarm_rule,
                    actions_suppressor_extension_period: self@.actions_suppressor_extension_period,
                    actions_enabled: self@.actions_enabled,
                })
            },
            is_generated_id(r@.resource_id, "CompositeAlarm"@),
            r@.ref_name is None,
            r@.arn_value is None,
    {
        let resource_id = Resource::generate_id("CompositeAlarm");
        let resource = CompositeAlarm {
            id: self.id,
            resource_id: resource_id.clone(),
            resource_type: String::from_str("AWS::CloudWatch::CompositeAlarm"),
            properties: CompositeAlarmProperties {
                alarm_description: self.alarm_description,
                insufficient_data_actions: self.insufficient_data_actions,
                ok_actions: self.ok_actions,
                alarm_name: self.alarm_name,
                actions_suppressor_wait_period: self.actions_suppressor_wait_period,
                actions_suppressor: self.actions_suppressor,
                alarm_actions: self.alarm_actions,
                alarm_rule: self.alarm_rule,
                actions_suppressor_extension_period: self.actions_suppressor_extension_period,
                actions_enabled: self.actions_enabled,
            },
        };
        stack_builder.add_resource(Resource::CompositeAlarm(resource));
        CompositeAlarmRef::internal_new(resource_id)
    }
}

/// Builder for a CloudWatch Dashboard.
pub struct DashboardBuilder {
    pub(crate) id: Id,
    pub(crate) dashboard_body: String,
    pub(crate) dashboard_name: Option<String>,
}

/// What a [`DashboardBuilder`] holds.
pub struct DashboardBuilderView {
    pub id: Id,
    pub dashboard_body: String,
    pub dashboard_name: Option<String>,
}

impl View for DashboardBuilder {
    type V = DashboardBuilderView;

    open(crate) spec fn view(&self) -> DashboardBuilderView {
        DashboardBuilderView {
            id: self.id,
            dashboard_body: self.dashboard_body,
            dashboard_name: self.dashboard_name,
        }
    }
}

impl DashboardBuilder {
    pub fn new(id: &str, dashboard_body: String) -> (r: Self)
        ensures
            r@.id.0@ == id@,
            r@.dashboard_body == dashboard_body,
            r@.dashboard_name is None,
    {
        Self {
            id: Id(String::from_str(id)),
            dashboard_body,
            dashboard_name: None,
        }
    }

    pub fn dashboard_name(self, dashboard_name: String) -> (r: Self)
        ensures
            r@ == (DashboardBuilderView { dashboard_name: Some(dashboard_name), ..self@ }),
    {
        Self {
            dashboard_name: Some(dashboard_name),
            ..self
        }
    }

    /// Adds the Dashboard to the stack, with the builder's settings as its properties.
    pub fn build(self, stack_builder: &mut StackBuilder) -> (r: DashboardRef)
        ensures
            final(stack_builder)@ == (StackBuilderView {
                resources: old(stack_builder)@.resources.push(final(stack_builder)@.resources.last()),
                ..old(stack_builder)@
            }),
            final(stack_builder)@.resources.last() matches Resource::Dashboard(a) && {
                &&& a@.id == self@.id
                &&& a@.resource_id@ == r@.resource_id
                &&& a@.resource_type@ == "AWS::CloudWatch::Dashboard"@
                &&& a@.properties@ == (DashboardPropertiesView {
                    dashboard_body: self@.dashboard_body,
                    dashboard_name: self@.dashboard_name,
                })
            },
            is_generated_id(r@.resource_id, "Dashboard"@),
            r@.ref_name is None,
            r@.arn_value is None,
    {
        let resource_id = Resource::generate_id("Dashboard");
        let resource = Dashboard {
            id: self.id,
            resource_id: resource_id.clone(),
            resource_type: String::from_str("AWS::CloudWatch::Dashboard"),
            properties: DashboardProperties {
                dashboard_body: self.dashboard_body,
                dashboard_name: self.dashboard_name,
            },
        };
        stack_builder.add_resource(Resource::Dashboard(resource));
        DashboardRef::internal_new(resource_id)
    }
}

/// Builder for a CloudWatch InsightRule.
pub struct InsightRuleBuilder {
    pub(crate) id: Id,
    pub(crate) apply_on_transformed_logs: Option<bool>,
    pub(crate) rule_name: String,
    pub(crate) rule_body: String,
    pub(crate) rule_state: String,
}

/// What a [`InsightRuleBuilder`] holds.
pub struct InsightRuleBuilderView {
    pub id: Id,
    pub apply_on_transformed_logs: Option<bool>,
    pub rule_name: String,
    pub rule_body: String,
    pub rule_state: String,
}

impl View for InsightRuleBuilder {
    type V = InsightRuleBuilderView;

    open(crate) spec fn view(&self) -> InsightRuleBuilderView {
        InsightRuleBuilderView {
            id: self.id,
            apply_on_transformed_logs: self.apply_on_transformed_logs,
            rule_name: self.rule_name,
            rule_body: self.rule_body,
            rule_state: self.rule_state,
        }
    }
}

impl InsightRuleBuilder {
    pub fn new(id: &str, rule_name: String, rule_body: String, rule_state: String) -> (r: Self)
        ensures
            r@.id.0@ == id@,
            r@.apply_on_transformed_logs is None,
            r@.rule_name == rule_name,
            r@.rule_body == rule_body,
            r@.rule_state == rule_state,
    {
        Self {
            id: Id(String::from_str(id)),
            apply_on_transformed_logs: None,
            rule_name,
            rule_body,
            rule_state,
        }
    }

    pub fn apply_on_transformed_logs(self, apply_on_transformed_logs: bool) -> (r: Self)
        ensures
            r@ == (InsightRuleBuilderView { apply_on_transformed_logs: Some(apply_on_transformed_logs), ..self@ }),
    {
        Self {
            apply_on_transformed_logs: Some(apply_on_transformed_logs),
            ..self
        }
    }

    /// Adds the InsightRule to the stack, with the builder's settings as its properties.
    pub fn build(self, stack_builder: &mut StackBuilder) -> (r: InsightRuleRef)
        ensures
            final(stack_builder)@ == (StackBuilderView {
                resources: old(stack_builder)@.resources.push(final(stack_builder)@.resources.last()),
                ..old(stack_builder)@
            }),
            final(stack_builder)@.resources.last() matches Resource::InsightRule(a) && {
                &&& a@.id == self@.id
                &&& a@.resource_id@ == r@.resource_id
                &&& a@.resource_type@ == "AWS::CloudWatch::InsightRule"@
                &&& a@.properties@ == (InsightRulePropertiesView {
                    apply_on_transformed_logs: self@.apply_on_transformed_logs,
                    rule_name: self@.rule_name,
                    rule_body: self@.rule_body,
                    rule_state: self@.rule_state,
                })
            },
            is_generated_id(r@.resource_id, "InsightRule"@),
            r@.ref_name is None,
            r@.arn_value is None,
    {
        let resource_id = Resource::generate_id("InsightRule");
        let resource = InsightRule {
            id: self.id,
            resource_id: resource_id.clone(),
            resource_type: String::from_str("AWS::CloudWatch::InsightRule"),
            properties: InsightRuleProperties {
                apply_on_transformed_logs: self.apply_on_transformed_logs,
                rule_name: self.rule_name,
                rule_body: self.rule_body,
                rule_state: self.rule_state,
            },
        };
        stack_builder.add_resource(Resource::InsightRule(resource));
        InsightRuleRef::internal_new(resource_id)
    }
}

/// Builder for a CloudWatch MetricStream.
pub struct MetricStreamBuilder {
    pub(crate) id: Id,
    pub(crate) include_linked_accounts_metrics: Option<bool>,
    pub(crate) firehose_arn: Option<String>,
    pub(crate) include_filters: Option<Vec<MetricStreamFilter>>,
    pub(crate) role_arn: Option<String>,
    pub(crate) output_format: Option<String>,
    pub(crate) name: Option<String>,
    pub(crate) statistics_configurations: Option<Vec<MetricStreamStatisticsConfiguration>>,
    pub(crate) exclude_filters: Option<Vec<MetricStreamFilter>>,
}

/// What a [`MetricStreamBuilder`] holds.
pub struct MetricStreamBuilderView {
    pub id: Id,
    pub include_linked_accounts_metrics: Option<bool>,
    pub firehose_arn: Option<String>,
    pub include_filters: Option<Vec<MetricStreamFilter>>,
    pub role_arn: Option<String>,
    pub output_format: Option<String>,
    pub name: Option<String>,
    pub statistics_configurations: Option<Vec<MetricStreamStatisticsConfiguration>>,
    pub exclude_filters: Option<Vec<MetricStreamFilter>>,
}

impl View for MetricStreamBuilder {
    type V = MetricStreamBuilderView;

    open(crate) spec fn view(&self) -> MetricStreamBuilderView {
        MetricStreamBuilderView {
            id: self.id,
            include_linked_accounts_metrics: self.include_linked_accounts_metrics,
            firehose_arn: self.firehose_arn,
            include_filters: self.include_filters,
            role_arn: self.role_arn,
            output_format: self.output_format,
            name: self.name,
            statistics_configurations: self.statistics_configurations,
            exclude_filters: self.exclude_filters,
        }
    }
}

impl MetricStreamBuilder {
    pub fn new(id: &str) -> (r: Self)
        ensures
            r@.id.0@ == id@,
            r@.include_linked_accounts_metrics is None,
            r@.firehose_arn is None,
            r@.include_filters is None,
            r@.role_arn is None,
            r@.output_format is None,
            r@.name is None,
            r@.statistics_configurations is None,
            r@.exclude_filters is None,
    {
        Self {
            id: Id(String::from_str(id)),
            include_linked_accounts_metrics: None,
            firehose_arn: None,
            include_filters: None,
            role_arn: None,
            output_format: None,
            name: None,
            statistics_configurations: None,
            exclude_filters: None,
        }
    }

    pub fn include_linked_accounts_metrics(self, include_linked_accounts_metrics: bool) -> (r: Self)
        ensures
            r@ == (MetricStreamBuilderView { include_linked_accounts_metrics: Some(include_linked_accounts_metrics), ..self@ }),
    {
        Self {
            include_linked_accounts_metrics: Some(include_linked_accounts_metrics),
            ..self
        }
    }

    pub fn firehose_arn(self, firehose_arn: String) -> (r: Self)
        ensures
            r@ == (MetricStreamBuilderView { firehose_arn: Some(firehose_arn), ..self@ }),
    {
        Self {
            firehose_arn: Some(firehose_arn),
            ..self
        }
    }

    pub fn include_filters(self, include_filters: Vec<MetricStreamFilter>) -> (r: Self)
        ensures
            r@ == (MetricStreamBuilderView { include_filters: Some(include_filters), ..self@ }),
    {
        Self {
            include_filters: Some(include_filters),
            ..self
        }
    }

    pub fn role_arn(self, role_arn: String) -> (r: Self)
        ensures
            r@ == (MetricStreamBuilderView { role_arn: Some(role_arn), ..self@ }),
    {
        Self {
            role_arn: Some(role_arn),
            ..self
        }
    }

    pub fn output_format(self, output_format: String) -> (r: Self)
        ensures
            r@ == (MetricStreamBuilderView { output_format: Some(output_format), ..self@ }),
    {
        Self {
            output_format: Some(output_format),
            ..self
        }
    }

    pub fn name(self, name: String) -> (r: Self)
        ensures
            r@ == (MetricStreamBuilderView { name: Some(name), ..self@ }),
    {
        Self {
            name: Some(name),
            ..self
        }
    }

    pub fn statistics_configurations(self, statistics_configurations: Vec<MetricStreamStatisticsConfiguration>) -> (r: Self)
        ensures
            r@ == (MetricStreamBuilderView { statistics_configurations: Some(statistics_configurations), ..self@ }),
    {
        Self {
            statistics_configurations: Some(statistics_configurations),
            ..self
        }
    }

    pub fn exclude_filters(self, exclude_filters: Vec<MetricStreamFilter>) -> (r: Self)
        ensures
            r@ == (MetricStreamBuilderView { exclude_filters: Some(exclude_filters), ..self@ }),
    {
        Self {
            exclude_filters: Some(exclude_filters),
            ..self
        }
    }

    /// Adds the MetricStream to the stack, with the builder's settings as its properties.
    pub fn build(self, stack_builder: &mut StackBuilder) -> (r: MetricStreamRef)
        ensures
            final(stack_builder)@ == (StackBuilderView {
                resources: old(stack_builder)@.resources.push(final(stack_builder)@.resources.last()),
                ..old(stack_builder)@
            }),
            final(stack_builder)@.resources.last() matches Resource::MetricStream(a) && {
                &&& a@.id == self@.id
                &&& a@.resource_id@ == r@.resource_id
                &&& a@.resource_type@ == "AWS::CloudWatch::MetricStream"@
                &&& a@.properties@ == (MetricStreamPropertiesView {
                    include_linked_accounts_metrics: self@.include_linked_accounts_metrics,
                    firehose_arn: self@.firehose_arn,
                    include_filters: self@.include_filters,
                    role_arn: self@.role_arn,
                    output_format: self@.output_format,
                    name: self@.name,
                    statistics_configurations: self@.statistics_configurations,
                    exclude_filters: self@.exclude_filters,
                })
            },
            is_generated_id(r@.resource_id, "MetricStream"@),
            r@.ref_name is None,
            r@.arn_value is None,
    {
        let resource_id = Resource::generate_id("MetricStream");
        let resource = MetricStream {
            id: self.id,
            resource_id: resource_id.clone(),
            resource_type: String::from_str("AWS::CloudWatch::MetricStream"),
            properties: MetricStreamProperties {
                include_linked_accounts_metrics: self.include_linked_accounts_metrics,
                firehose_arn: self.firehose_arn,
                include_filters: self.include_filters,
                role_arn: self.role_arn,
                output_format: self.output_format,
                name: self.name,
                statistics_configurations: self.statistics_configurations,
                exclude_filters: self.exclude_filters,
            },
        };
        stack_builder.add_resource(Resource::MetricStream(resource));
        MetricStreamRef::internal_new(resource_id)
    }
}

/// Builder for a [`Dimension`].
pub struct DimensionBuilder {
    pub(crate) value: String,
    pub(crate) name: String,
}

/// What a [`DimensionBuilder`] holds.
pub struct DimensionBuilderView {
    pub value: String,
    pub name: String,
}

impl View for DimensionBuilder {
    type V = DimensionBuilderView;

    open(crate) spec fn view(&self) -> DimensionBuilderView {
        DimensionBuilderView {
            value: self.value,
            name: self.name,
        }
    }
}

impl DimensionBuilder {
    pub fn new(value: String, name: String) -> (r: Self)
        ensures
            r@.value == value,
            r@.name == name,
    {
        Self {
            value,
            name,
        }
    }

    pub fn build(self) -> (r: Dimension)
        ensures
            r@ == (DimensionView { value: self@.value, name: self@.name }),
    {
        Dimension {
            value: self.value,
            name: self.name,
        }
    }
}

/// Builder for a [`MetricDataQuery`].
pub struct MetricDataQueryBuilder {
    pub(crate) return_data: Option<bool>,
    pub(crate) expression: Option<String>,
    pub(crate) id: String,
    pub(crate) period: Option<u32>,
    pub(crate) label: Option<String>,
    pub(crate) account_id: Option<String>,
    pub(crate) metric_stat: Option<MetricStat>,
}

/// What a [`MetricDataQueryBuilder`] holds.
pub struct MetricDataQueryBuilderView {
    pub return_data: Option<bool>,
    pub expression: Option<String>,
    pub id: String,
    pub period: Option<u32>,
    pub label: Option<String>,
    pub account_id: Option<String>,
    pub metric_stat: Option<MetricStat>,
}

impl View for MetricDataQueryBuilder {
    type V = MetricDataQueryBuilderView;

    open(crate) spec fn view(&self) -> MetricDataQueryBuilderView {
        MetricDataQueryBuilderView {
            return_data: self.return_data,
            expression: self.expression,
            id: self.id,
            period: self.period,
            label: self.label,
            account_id: self.account_id,
            metric_stat: self.metric_stat,
        }
    }
}

impl MetricDataQueryBuilder {
    pub fn new(id: String) -> (r: Self)
        ensures
            r@.return_data is None,
            r@.expression is None,
            r@.id == id,
            r@.period is None,
            r@.label is None,
            r@.account_id is None,
            r@.metric_stat is None,
    {
        Self {
            return_data: None,
            expression: None,
            id,
            period: None,
            label: None,
            account_id: None,
            metric_stat: None,
        }
    }

    pub fn return_data(self, return_data: bool) -> (r: Self)
        ensures
            r@ == (MetricDataQueryBuilderView { return_data: Some(return_data), ..self@ }),
    {
        Self {
            return_data: Some(return_data),
            ..self
        }
    }

    pub fn expression(self, expression: String) -> (r: Self)
        ensures
            r@ == (MetricDataQueryBuilderView { expression: Some(expression), ..self@ }),
    {
        Self {
            expression: Some(expression),
            ..self
        }
    }

    pub fn period(self, period: u32) -> (r: Self)
        ensures
            r@ == (MetricDataQueryBuilderView { period: Some(period), ..self@ }),
    {
        Self {
            period: Some(period),
            ..self
        }
    }

    pub fn label(self, label: String) -> (r: Self)
        ensures
            r@ == (MetricDataQueryBuilderView { label: Some(label), ..self@ }),
    {
        Self {
            label: Some(label),
            ..self
        }
    }

    pub fn account_id(self, account_id: String) -> (r: Self)
        ensures
            r@ == (MetricDataQueryBuilderView { account_id: Some(account_id), ..self@ }),
    {
        Self {
            account_id: Some(account_id),
            ..self
        }
    }

    pub fn metric_stat(self, metric_stat: MetricStat) -> (r: Self)
        ensures
            r@ == (MetricDataQueryBuilderView { metric_stat: Some(metric_stat), ..self@ }),
    {
        Self {
            metric_stat: Some(metric_stat),
            ..self
        }
    }

    pub fn build(self) -> (r: MetricDataQuery)
        ensures
            r@ == (MetricDataQueryView { return_data: self@.return_data, expression: self@.expression, id: self@.id, period: self@.period, label: self@.label, account_id: self@.account_id, metric_stat: self@.metric_stat }),
    {
        MetricDataQuery {
            return_data: self.return_data,
            expression: self.expression,
            id: self.id,
            period: self.period,
            label: self.label,
            account_id: self.account_id,
            metric_stat: self.metric_stat,
        }
    }
}

/// Builder for a [`Tag`].
pub struct TagBuilder {
    pub(crate) value: String,
    pub(crate) key: String,
}

/// What a [`TagBuilder`] holds.
pub struct TagBuilderView {
    pub value: String,
    pub key: String,
}

impl View for TagBuilder {
    type V = TagBuilderView;

    open(crate) spec fn view(&self) -> TagBuilderView {
        TagBuilderView {
            value: self.value,
            key: self.key,
        }
    }
}

impl TagBuilder {
    pub fn new(value: String, key: String) -> (r: Self)
        ensures
            r@.value == value,
            r@.key == key,
    {
        Self {
            value,
            key,
        }
    }

    pub fn build(self) -> (r: Tag)
        ensures
            r@ == (TagView { value: self@.value, key: self@.key }),
    {
        Tag {
            value: self.value,
            key: self.key,
        }
    }
}

/// Builder for a [`Configuration`].
pub struct ConfigurationBuilder {
    pub(crate) excluded_time_ranges: Option<Vec<Range>>,
    pub(crate) metric_time_zone: Option<String>,
}

/// What a [`ConfigurationBuilder`] holds.
pub struct ConfigurationBuilderView {
    pub excluded_time_ranges: Option<Vec<Range>>,
    pub metric_time_zone: Option<String>,
}

impl View for ConfigurationBuilder {
    type V = ConfigurationBuilderView;

    open(crate) spec fn view(&self) -> ConfigurationBuilderView {
        ConfigurationBuilderView {
            excluded_time_ranges: self.excluded_time_ranges,
            metric_time_zone: self.metric_time_zone,
        }
    }
}

impl ConfigurationBuilder {
    pub fn new() -> (r: Self)
        ensures
            r@.excluded_time_ranges is None,
            r@.metric_time_zone is None,
    {
        Self {
            excluded_time_ranges: None,
            metric_time_zone: None,
        }
    }

    pub fn excluded_time_ranges(self, excluded_time_ranges: Vec<Range>) -> (r: Self)
        ensures
            r@ == (ConfigurationBuilderView { excluded_time_ranges: Some(excluded_time_ranges), ..self@ }),
    {
        Self {
            excluded_time_ranges: Some(excluded_time_ranges),
            ..self
        }
    }

    pub fn metric_time_zone(self, metric_time_zone: String) -> (r: Self)
        ensures
            r@ == (ConfigurationBuilderView { metric_time_zone: Some(metric_time_zone), ..self@ }),
    {
        Self {
            metric_time_zone: Some(metric_time_zone),
            ..self
        }
    }

    pub fn build(self) -> (r: Configuration)
        ensures
            r@ == (ConfigurationView { excluded_time_ranges: self@.excluded_time_ranges, metric_time_zone: self@.metric_time_zone }),
    {
        Configuration {
            excluded_time_ranges: self.excluded_time_ranges,
            metric_time_zone: self.metric_time_zone,
        }
    }
}

/// Builder for a [`MetricCharacteristics`].
pub struct MetricCharacteristicsBuilder {
    pub(crate) periodic_spikes: Option<bool>,
}

/// What a [`MetricCharacteristicsBuilder`] holds.
pub struct MetricCharacteristicsBuilderView {
    pub periodic_spikes: Option<bool>,
}

impl View for MetricCharacteristicsBuilder {
    type V = MetricCharacteristicsBuilderView;

    open(crate) spec fn view(&self) -> MetricCharacteristicsBuilderView {
        MetricCharacteristicsBuilderView {
            periodic_spikes: self.periodic_spikes,
        }
    }
}

impl MetricCharacteristicsBuilder {
    pub fn new() -> (r: Self)
        ensures
            r@.periodic_spikes is None,
    {
        Self {
            periodic_spikes: None,
        }
    }

    pub fn periodic_spikes(self, periodic_spikes: bool) -> (r: Self)
        ensures
            r@ == (MetricCharacteristicsBuilderView { periodic_spikes: Some(periodic_spikes), ..self@ }),
    {
        Self {
            periodic_spikes: Some(periodic_spikes),
            ..self
        }
    }

    pub fn build(self) -> (r: MetricCharacteristics)
        ensures
            r@ == (MetricCharacteristicsView { periodic_spikes: self@.periodic_spikes }),
    {
        MetricCharacteristics {
            periodic_spikes: self.periodic_spikes,
        }
    }
}

/// Builder for a [`MetricMathAnomalyDetector`].
pub struct MetricMathAnomalyDetectorBuilder {
    pub(crate) metric_data_queries: Option<Vec<MetricDataQuery>>,
}

/// What a [`MetricMathAnomalyDetectorBuilder`] holds.
pub struct MetricMathAnomalyDetectorBuilderView {
    pub metric_data_queries: Option<Vec<MetricDataQuery>>,
}

impl View for MetricMathAnomalyDetectorBuilder {
    type V = MetricMathAnomalyDetectorBuilderView;

    open(crate) spec fn view(&self) -> MetricMathAnomalyDetectorBuilderView {
        MetricMathAnomalyDetectorBuilderView {
            metric_data_queries: self.metric_data_queries,
        }
    }
}

impl MetricMathAnomalyDetectorBuilder {
    pub fn new() -> (r: Self)
        ensures
            r@.metric_data_queries is None,
    {
        Self {
            metric_data_queries: None,
        }
    }

    pub fn metric_data_queries(self, metric_data_queries: Vec<MetricDataQuery>) -> (r: Self)
        ensures
            r@ == (MetricMathAnomalyDetectorBuilderView { metric_data_queries: Some(metric_data_queries), ..self@ }),
    {
        Self {
            metric_data_queries: Some(metric_data_queries),
            ..self
        }
    }

    pub fn build(self) -> (r: MetricMathAnomalyDetector)
        ensures
            r@ == (MetricMathAnomalyDetectorView { metric_data_queries: self@.metric_data_queries }),
    {
        MetricMathAnomalyDetector {
            metric_data_queries: self.metric_data_queries,
        }
    }
}

/// Builder for a [`SingleMetricAnomalyDetector`].
pub struct SingleMetricAnomalyDetectorBuilder {
    pub(crate) namespace: Option<String>,
    pub(crate) stat: Option<String>,
    pub(crate) dimensions: Option<Vec<Dimension>>,
    pub(crate) account_id: Option<String>,
    pub(crate) metric_name: Option<String>,
}

/// What a [`SingleMetricAnomalyDetectorBuilder`] holds.
pub struct SingleMetricAnomalyDetectorBuilderView {
    pub namespace: Option<String>,
    pub stat: Option<String>,
    pub dimensions: Option<Vec<Dimension>>,
    pub account_id: Option<String>,
    pub metric_name: Option<String>,
}

impl View for SingleMetricAnomalyDetectorBuilder {
    type V = SingleMetricAnomalyDetectorBuilderView;

    open(crate) spec fn view(&self) -> SingleMetricAnomalyDetectorBuilderView {
        SingleMetricAnomalyDetectorBuilderView {
            namespace: self.namespace,
            stat: self.stat,
            dimensions: self.dimensions,
            account_id: self.account_id,
            metric_name: self.metric_name,
        }
    }
}

impl SingleMetricAnomalyDetectorBuilder {
    pub fn new() -> (r: Self)
        ensures
            r@.namespace is None,
            r@.stat is None,
            r@.dimensions is None,
            r@.account_id is None,
            r@.metric_name is None,
    {
        Self {
            namespace: None,
            stat: None,
            dimensions: None,
            account_id: None,
            metric_name: None,
        }
    }

    pub fn namespace(self, namespace: String) -> (r: Self)
        ensures
            r@ == (SingleMetricAnomalyDetectorBuilderView { namespace: Some(namespace), ..self@ }),
    {
        Self {
            namespace: Some(namespace),
            ..self
        }
    }

    pub fn stat(self, stat: String) -> (r: Self)
        ensures
            r@ == (SingleMetricAnomalyDetectorBuilderView { stat: Some(stat), ..self@ }),
    {
        Self {
            stat: Some(stat),
            ..self
        }
    }

    pub fn dimensions(self, dimensions: Vec<Dimension>) -> (r: Self)
        ensures
            r@ == (SingleMetricAnomalyDetectorBuilderView { dimensions: Some(dimensions), ..self@ }),
    {
        Self {
            dimensions: Some(dimensions),
            ..self
        }
    }

    pub fn account_id(self, account_id: String) -> (r: Self)
        ensures
            r@ == (SingleMetricAnomalyDetectorBuilderView { account_id: Some(account_id), ..self@ }),
    {
        Self {
            account_id: Some(account_id),
            ..self
        }
    }

    pub fn metric_name(self, metric_name: String) -> (r: Self)
        ensures
            r@ == (SingleMetricAnomalyDetectorBuilderView { metric_name: Some(metric_name), ..self@ }),
    {
        Self {
            metric_name: Some(metric_name),
            ..self
        }
    }

    pub fn build(self) -> (r: SingleMetricAnomalyDetector)
        ensures
            r@ == (SingleMetricAnomalyDetectorView { namespace: self@.namespace, stat: self@.stat, dimensions: self@.dimensions, account_id: self@.account_id, metric_name: self@.metric_name }),
    {
        SingleMetricAnomalyDetector {
            namespace: self.namespace,
            stat: self.stat,
            dimensions: self.dimensions,
            account_id: self.account_id,
            metric_name: self.metric_name,
        }
    }
}

/// Builder for a [`MetricStreamFilter`].
pub struct MetricStreamFilterBuilder {
    pub(crate) metric_names: Option<Vec<String>>,
    pub(crate) namespace: String,
}

/// What a [`MetricStreamFilterBuilder`] holds.
pub struct MetricStreamFilterBuilderView {
    pub metric_names: Option<Vec<String>>,
    pub namespace: String,
}

impl View for MetricStreamFilterBuilder {
    type V = MetricStreamFilterBuilderView;

    open(crate) spec fn view(&self) -> MetricStreamFilterBuilderView {
        MetricStreamFilterBuilderView {
            metric_names: self.metric_names,
            namespace: self.namespace,
        }
    }
}

impl MetricStreamFilterBuilder {
    pub fn new(namespace: String) -> (r: Self)
        ensures
            r@.metric_names is None,
            r@.namespace == namespace,
    {
        Self {
            metric_names: None,
            namespace,
        }
    }

    pub fn metric_names(self, metric_names: Vec<String>) -> (r: Self)
        ensures
            r@ == (MetricStreamFilterBuilderView { metric_names: Some(metric_names), ..self@ }),
    {
        Self {
            metric_names: Some(metric_names),
            ..self
        }
    }

    pub fn build(self) -> (r: MetricStreamFilter)
        ensures
            r@ == (MetricStreamFilterView { metric_names: self@.metric_names, namespace: self@.namespace }),
    {
        MetricStreamFilter {
            metric_names: self.metric_names,
            namespace: self.namespace,
        }
    }
}

/// Builder for a [`MetricStreamStatisticsConfiguration`].
pub struct MetricStreamStatisticsConfigurationBuilder {
    pub(crate) additional_statistics: Vec<String>,
    pub(crate) include_metrics: Vec<MetricStreamStatisticsMetric>,
}

/// What a [`MetricStreamStatisticsConfigurationBuilder`] holds.
pub struct MetricStreamStatisticsConfigurationBuilderView {
    pub additional_statistics: Vec<String>,
    pub include_metrics: Vec<MetricStreamStatisticsMetric>,
}

impl View for MetricStreamStatisticsConfigurationBuilder {
    type V = MetricStreamStatisticsConfigurationBuilderView;

    open(crate) spec fn view(&self) -> MetricStreamStatisticsConfigurationBuilderView {
        MetricStreamStatisticsConfigurationBuilderView {
            additional_statistics: self.additional_statistics,
            include_metrics: self.include_metrics,
        }
    }
}

impl MetricStreamStatisticsConfigurationBuilder {
    pub fn new(additional_statistics: Vec<String>, include_metrics: Vec<MetricStreamStatisticsMetric>) -> (r: Self)
        ensures
            r@.additional_statistics == additional_statistics,
            r@.include_metrics == include_metrics,
    {
        Self {
            additional_statistics,
            include_metrics,
        }
    }

    pub fn build(self) -> (r: MetricStreamStatisticsConfiguration)
        ensures
            r@ == (MetricStreamStatisticsConfigurationView { additional_statistics: self@.additional_statistics, include_metrics: self@.include_metrics }),
    {
        MetricStreamStatisticsConfiguration {
            additional_statistics: self.additional_statistics,
            include_metrics: self.include_metrics,
        }
    }
}

/// Builder for a [`MetricStat`].
pub struct MetricStatBuilder {
    pub(crate) period: u32,
    pub(crate) unit: Option<String>,
    pub(crate) metric: Metric,
    pub(crate) stat: String,
}

/// What a [`MetricStatBuilder`] holds.
pub struct MetricStatBuilderView {
    pub period: u32,
    pub unit: Option<String>,
    pub metric: Metric,
    pub stat: String,
}

impl View for MetricStatBuilder {
    type V = MetricStatBuilderView;

    open(crate) spec fn view(&self) -> MetricStatBuilderView {
        MetricStatBuilderView {
            period: self.period,
            unit: self.unit,
            metric: self.metric,
            stat: self.stat,
        }
    }
}

impl MetricStatBuilder {
    pub fn new(period: u32, metric: Metric, stat: String) -> (r: Self)
        ensures
            r@.period == period,
            r@.unit is None,
            r@.metric == metric,
            r@.stat == stat,
    {
        Self {
            period,
            unit: None,
            metric,
            stat,
        }
    }

    pub fn unit(self, unit: String) -> (r: Self)
        ensures
            r@ == (MetricStatBuilderView { unit: Some(unit), ..self@ }),
    {
        Self {
            unit: Some(unit),
            ..self
        }
    }

    pub fn build(self) -> (r: MetricStat)
        ensures
            r@ == (MetricStatView { period: self@.period, unit: self@.unit, metric: self@.metric, stat: self@.stat }),
    {
        MetricStat {
            period: self.period,
            unit: self.unit,
            metric: self.metric,
            stat: self.stat,
        }
    }
}

/// Builder for a [`Range`].
pub struct RangeBuilder {
    pub(crate) end_time: String,
    pub(crate) start_time: String,
}

/// What a [`RangeBuilder`] holds.
pub struct RangeBuilderView {
    pub end_time: String,
    pub start_time: String,
}

impl View for RangeBuilder {
    type V = RangeBuilderView;

    open(crate) spec fn view(&self) -> RangeBuilderView {
        RangeBuilderView {
            end_time: self.end_time,
            start_time: self.start_time,
        }
    }
}

impl RangeBuilder {
    pub fn new(end_time: String, start_time: String) -> (r: Self)
        ensures
            r@.end_time == end_time,
            r@.start_time == start_time,
    {
        Self {
            end_time,
            start_time,
        }
    }

    pub fn build(self) -> (r: Range)
        ensures
            r@ == (RangeView { end_time: self@.end_time, start_time: self@.start_time }),
    {
        Range {
            end_time: self.end_time,
            start_time: self.start_time,
        }
    }
}

/// Builder for a [`MetricStreamStatisticsMetric`].
pub struct MetricStreamStatisticsMetricBuilder {
    pub(crate) metric_name: String,
    pub(crate) namespace: String,
}

/// What a [`MetricStreamStatisticsMetricBuilder`] holds.
pub struct MetricStreamStatisticsMetricBuilderView {
    pub metric_name: String,
    pub namespace: String,
}

impl View for MetricStreamStatisticsMetricBuilder {
    type V = MetricStreamStatisticsMetricBuilderView;

    open(crate) spec fn view(&self) -> MetricStreamStatisticsMetricBuilderView {
        MetricStreamStatisticsMetricBuilderView {
            metric_name: self.metric_name,
            namespace: self.namespace,
        }
    }
}

impl MetricStreamStatisticsMetricBuilder {
    pub fn new(metric_name: String, namespace: String) -> (r: Self)
        ensures
            r@.metric_name == metric_name,
            r@.namespace == namespace,
    {
        Self {
            metric_name,
            namespace,
        }
    }

    pub fn build(self) -> (r: MetricStreamStatisticsMetric)
        ensures
            r@ == (MetricStreamStatisticsMetricView { metric_name: self@.metric_name, namespace: self@.namespace }),
    {
        MetricStreamStatisticsMetric {
            metric_name: self.metric_name,
            namespace: self.namespace,
        }
    }
}

/// Builder for a [`Metric`].
pub struct MetricBuilder {
    pub(crate) metric_name: Option<String>,
    pub(crate) dimensions: Option<Vec<Dimension>>,
    pub(crate) namespace: Option<String>,
}

/// What a [`MetricBuilder`] holds.
pub struct MetricBuilderView {
    pub metric_name: Option<String>,
    pub dimensions: Option<Vec<Dimension>>,
    pub namespace: Option<String>,
}

impl View for MetricBuilder {
    type V = MetricBuilderView;

    open(crate) spec fn view(&self) -> MetricBuilderView {
        MetricBuilderView {
            metric_name: self.metric_name,
            dimensions: self.dimensions,
            namespace: self.namespace,
        }
    }
}

impl MetricBuilder {
    pub fn new() -> (r: Self)
        ensures
            r@.metric_name is None,
            r@.dimensions is None,
            r@.namespace is None,
    {
        Self {
            metric_name: None,
            dimensions: None,
            namespace: None,
        }
    }

    pub fn metric_name(self, metric_name: String) -> (r: Self)
        ensures
            r@ == (MetricBuilderView { metric_name: Some(metric_name), ..self@ }),
    {
        Self {
            metric_name: Some(metric_name),
            ..self
        }
    }

    pub fn dimensions(self, dimensions: Vec<Dimension>) -> (r: Self)
        ensures
            r@ == (MetricBuilderView { dimensions: Some(dimensions), ..self@ }),
    {
        Self {
            dimensions: Some(dimensions),
            ..self
        }
    }

    pub fn namespace(self, namespace: String) -> (r: Self)
        ensures
            r@ == (MetricBuilderView { namespace: Some(namespace), ..self@ }),
    {
        Self {
            namespace: Some(namespace),
            ..self
        }
    }

    pub fn build(self) -> (r: Metric)
        ensures
            r@ == (MetricView { metric_name: self@.metric_name, dimensions: self@.dimensions, namespace: self@.namespace }),
    {
        Metric {
            metric_name: self.metric_name,
            dimensions: self.dimensions,
            namespace: self.namespace,
        }
    }
}

} // verus!
