//! How the module's resources appear in a CloudFormation template.
use crate::cloudwatch::{Alarm, AlarmProperties, AnomalyDetector, AnomalyDetectorProperties, CompositeAlarm, CompositeAlarmProperties, Configuration, Dashboard, DashboardProperties, Dimension, InsightRule, InsightRuleProperties, Metric, MetricCharacteristics, MetricDataQuery, MetricMathAnomalyDetector, MetricStat, MetricStream, MetricStreamFilter, MetricStreamProperties, MetricStreamStatisticsConfiguration, MetricStreamStatisticsMetric, Range, SingleMetricAnomalyDetector, Tag};
use crate::json::{member, opt_member, push_json, push_opt_json, JsonView, ToJson, Value};
use vstd::prelude::*;

verus! {

impl ToJson for Alarm {
    open(crate) spec fn as_json(&self) -> JsonView {
        JsonView::Object(
            Seq::empty()
                + member("Type"@, &self.resource_type)
                + member("Properties"@, &self.properties),
        )
    }

    fn to_json(&self) -> (r: Value) {
        let mut members: Vec<(String, Value)> = Vec::new();
        push_json(&mut members, "Type", &self.resource_type);
        push_json(&mut members, "Properties", &self.properties);
        Value::Object(members)
    }
}

impl ToJson for AlarmProperties {
    open(crate) spec fn as_json(&self) -> JsonView {
        JsonView::Object(
            Seq::empty()
                + opt_member("ThresholdMetricId"@, &self.threshold_metric_id)
                + opt_member("ActionsEnabled"@, &self.actions_enabled)
                + opt_member("Period"@, &self.period)
                + opt_member("ExtendedStatistic"@, &self.extended_statistic)
                + opt_member("DatapointsToAlarm"@, &self.datapoints_to_alarm)
                + opt_member("Statistic"@, &self.statistic)
                + opt_member("MetricName"@, &self.metric_name)
                + member("ComparisonOperator"@, &self.comparison_operator)
                + member("EvaluationPeriods"@, &self.evaluation_periods)
                + opt_member("Dimensions"@, &self.dimensions)
                + opt_member("Namespace"@, &self.namespace)
                + opt_member("AlarmDescription"@, &self.alarm_description)
                + opt_member("EvaluateLowSampleCountPercentile"@, &self.evaluate_low_sample_count_percentile)
                + opt_member("Threshold"@, &self.threshold)
                + opt_member("TreatMissingData"@, &self.treat_missing_data)
                + opt_member("AlarmName"@, &self.alarm_name)
                + opt_member("Unit"@, &self.unit)
                + opt_member("Metrics"@, &self.metrics)
                + opt_member("AlarmActions"@, &self.alarm_actions)
                + opt_member("InsufficientDataActions"@, &self.insufficient_data_actions)
                + opt_member("OKActions"@, &self.ok_actions),
        )
    }

    fn to_json(&self) -> (r: Value) {
        let mut members: Vec<(String, Value)> = Vec::new();
        push_opt_json(&mut members, "ThresholdMetricId", &self.threshold_metric_id);
        push_opt_json(&mut members, "ActionsEnabled", &self.actions_enabled);
        push_opt_json(&mut members, "Period", &self.period);
        push_opt_json(&mut members, "ExtendedStatistic", &self.extended_statistic);
        push_opt_json(&mut members, "DatapointsToAlarm", &self.datapoints_to_alarm);
        push_opt_json(&mut members, "Statistic", &self.statistic);
        push_opt_json(&mut members, "MetricName", &self.metric_name);
        push_json(&mut members, "ComparisonOperator", &self.comparison_operator);
        push_json(&mut members, "EvaluationPeriods", &self.evaluation_periods);
        push_opt_json(&mut members, "Dimensions", &self.dimensions);
        push_opt_json(&mut members, "Namespace", &self.namespace);
        push_opt_json(&mut members, "AlarmDescription", &self.alarm_description);
        push_opt_json(&mut members, "EvaluateLowSampleCountPercentile", &self.evaluate_low_sample_count_percentile);
        push_opt_json(&mut members, "Threshold", &self.threshold);
        push_opt_json(&mut members, "TreatMissingData", &self.treat_missing_data);
        push_opt_json(&mut members, "AlarmName", &self.alarm_name);
        push_opt_json(&mut members, "Unit", &self.unit);
        push_opt_json(&mut members, "Metrics", &self.metrics);
        push_opt_json(&mut members, "AlarmActions", &self.alarm_actions);
        push_opt_json(&mut members, "InsufficientDataActions", &self.insufficient_data_actions);
        push_opt_json(&mut members, "OKActions", &self.ok_actions);
        Value::Object(members)
    }
}

impl ToJson for AnomalyDetector {
    open(crate) spec fn as_json(&self) -> JsonView {
        JsonView::Object(
            Seq::empty()
                + member("Type"@, &self.resource_type)
                + member("Properties"@, &self.properties),
        )
    }

    fn to_json(&self) -> (r: Value) {
        let mut members: Vec<(String, Value)> = Vec::new();
        push_json(&mut members, "Type", &self.resource_type);
        push_json(&mut members, "Properties", &self.properties);
        Value::Object(members)
    }
}

impl ToJson for AnomalyDetectorProperties {
    open(crate) spec fn as_json(&self) -> JsonView {
        JsonView::Object(
            Seq::empty()
                + opt_member("Dimensions"@, &self.dimensions)
                + opt_member("Namespace"@, &self.namespace)
                + opt_member("MetricName"@, &self.metric_name)
                + opt_member("MetricCharacteristics"@, &self.metric_characteristics)
                + opt_member("MetricMathAnomalyDetector"@, &self.metric_math_anomaly_detector)
                + opt_member("Configuration"@, &self.configuration)
                + opt_member("SingleMetricAnomalyDetector"@, &self.single_metric_anomaly_detector)
                + opt_member("Stat"@, &self.stat),
        )
    }

    fn to_json(&self) -> (r: Value) {
        let mut members: Vec<(String, Value)> = Vec::new();
        push_opt_json(&mut members, "Dimensions", &self.dimensions);
        push_opt_json(&mut members, "Namespace", &self.namespace);
        push_opt_json(&mut members, "MetricName", &self.metric_name);
        push_opt_json(&mut members, "MetricCharacteristics", &self.metric_characteristics);
        push_opt_json(&mut members, "MetricMathAnomalyDetector", &self.metric_math_anomaly_detector);
        push_opt_json(&mut members, "Configuration", &self.configuration);
        push_opt_json(&mut members, "SingleMetricAnomalyDetector", &self.single_metric_anomaly_detector);
        push_opt_json(&mut members, "Stat", &self.stat);
        Value::Object(members)
    }
}

impl ToJson for CompositeAlarm {
    open(crate) spec fn as_json(&self) -> JsonView {
        JsonView::Object(
            Seq::empty()
                + member("Type"@, &self.resource_type)
                + member("Properties"@, &self.properties),
        )
    }

    fn to_json(&self) -> (r: Value) {
        let mut members: Vec<(String, Value)> = Vec::new();
        push_json(&mut members, "Type", &self.resource_type);
        push_json(&mut members, "Properties", &self.properties);
        Value::Object(members)
    }
}

impl ToJson for CompositeAlarmProperties {
    open(crate) spec fn as_json(&self) -> JsonView {
        JsonView::Object(
            Seq::empty()
                + opt_member("AlarmDescription"@, &self.alarm_description)
                + opt_member("InsufficientDataActions"@, &self.insufficient_data_actions)
                + opt_member("OKActions"@, &self.ok_actions)
                + opt_member("AlarmName"@, &self.alarm_name)
                + opt_member("ActionsSuppressorWaitPeriod"@, &self.actions_suppressor_wait_period)
                + opt_member("ActionsSuppressor"@, &self.actions_suppressor)
                + opt_member("AlarmActions"@, &self.alarm_actions)
                + member("AlarmRule"@, &self.alarm_rule)
                + opt_member("ActionsSuppressorExtensionPeriod"@, &self.actions_suppressor_extension_period)
                + opt_member("ActionsEnabled"@, &self.actions_enabled),
        )
    }

    fn to_json(&self) -> (r: Value) {
        let mut members: Vec<(String, Value)> = Vec::new();
        push_opt_json(&mut members, "AlarmDescription", &self.alarm_description);
        push_opt_json(&mut members, "InsufficientDataActions", &self.insufficient_data_actions);
        push_opt_json(&mut members, "OKActions", &self.ok_actions);
        push_opt_json(&mut members, "AlarmName", &self.alarm_name);
        push_opt_json(&mut members, "ActionsSuppressorWaitPeriod", &self.actions_suppressor_wait_period);
        push_opt_json(&mut members, "ActionsSuppressor", &self.actions_suppressor);
        push_opt_json(&mut members, "AlarmActions", &self.alarm_actions);
        push_json(&mut members, "AlarmRule", &self.alarm_rule);
        push_opt_json(&mut members, "ActionsSuppressorExtensionPeriod", &self.actions_suppressor_extension_period);
        push_opt_json(&mut members, "ActionsEnabled", &self.actions_enabled);
        Value::Object(members)
    }
}

impl ToJson for Dashboard {
    open(crate) spec fn as_json(&self) -> JsonView {
        JsonView::Object(
            Seq::empty()
                + member("Type"@, &self.resource_type)
                + member("Properties"@, &self.properties),
        )
    }

    fn to_json(&self) -> (r: Value) {
        let mut members: Vec<(String, Value)> = Vec::new();
        push_json(&mut members, "Type", &self.resource_type);
        push_json(&mut members, "Properties", &self.properties);
        Value::Object(members)
    }
}

impl ToJson for DashboardProperties {
    open(crate) spec fn as_json(&self) -> JsonView {
        JsonView::Object(
            Seq::empty()
                + member("DashboardBody"@, &self.dashboard_body)
                + opt_member("DashboardName"@, &self.dashboard_name),
        )
    }

    fn to_json(&self) -> (r: Value) {
        let mut members: Vec<(String, Value)> = Vec::new();
        push_json(&mut members, "DashboardBody", &self.dashboard_body);
        push_opt_json(&mut members, "DashboardName", &self.dashboard_name);
        Value::Object(members)
    }
}

impl ToJson for InsightRule {
    open(crate) spec fn as_json(&self) -> JsonView {
        JsonView::Object(
            Seq::empty()
                + member("Type"@, &self.resource_type)
                + member("Properties"@, &self.properties),
        )
    }

    fn to_json(&self) -> (r: Value) {
        let mut members: Vec<(String, Value)> = Vec::new();
        push_json(&mut members, "Type", &self.resource_type);
        push_json(&mut members, "Properties", &self.properties);
        Value::Object(members)
    }
}

impl ToJson for InsightRuleProperties {
    open(crate) spec fn as_json(&self) -> JsonView {
        JsonView::Object(
            Seq::empty()
                + opt_member("ApplyOnTransformedLogs"@, &self.apply_on_transformed_logs)
                + member("RuleName"@, &self.rule_name)
                + member("RuleBody"@, &self.rule_body)
                + member("RuleState"@, &self.rule_state),
        )
    }

    fn to_json(&self) -> (r: Value) {
        let mut members: Vec<(String, Value)> = Vec::new();
        push_opt_json(&mut members, "ApplyOnTransformedLogs", &self.apply_on_transformed_logs);
        push_json(&mut members, "RuleName", &self.rule_name);
        push_json(&mut members, "RuleBody", &self.rule_body);
        push_json(&mut members, "RuleState", &self.rule_state);
        Value::Object(members)
    }
}

impl ToJson for MetricStream {
    open(crate) spec fn as_json(&self) -> JsonView {
        JsonView::Object(
            Seq::empty()
                + member("Type"@, &self.resource_type)
                + member("Properties"@, &self.properties),
        )
    }

    fn to_json(&self) -> (r: Value) {
        let mut members: Vec<(String, Value)> = Vec::new();
        push_json(&mut members, "Type", &self.resource_type);
        push_json(&mut members, "Properties", &self.properties);
        Value::Object(members)
    }
}

impl ToJson for MetricStreamProperties {
    open(crate) spec fn as_json(&self) -> JsonView {
        JsonView::Object(
            Seq::empty()
                + opt_member("IncludeLinkedAccountsMetrics"@, &self.include_linked_accounts_metrics)
                + opt_member("FirehoseArn"@, &self.firehose_arn)
                + opt_member("IncludeFilters"@, &self.include_filters)
                + opt_member("RoleArn"@, &self.role_arn)
                + opt_member("OutputFormat"@, &self.output_format)
                + opt_member("Name"@, &self.name)
                + opt_member("StatisticsConfigurations"@, &self.statistics_configurations)
                + opt_member("ExcludeFilters"@, &self.exclude_filters),
        )
    }

    fn to_json(&self) -> (r: Value) {
        let mut members: Vec<(String, Value)> = Vec::new();
        push_opt_json(&mut members, "IncludeLinkedAccountsMetrics", &self.include_linked_accounts_metrics);
        push_opt_json(&mut members, "FirehoseArn", &self.firehose_arn);
        push_opt_json(&mut members, "IncludeFilters", &self.include_filters);
        push_opt_json(&mut members, "RoleArn", &self.role_arn);
        push_opt_json(&mut members, "OutputFormat", &self.output_format);
        push_opt_json(&mut members, "Name", &self.name);
        push_opt_json(&mut members, "StatisticsConfigurations", &self.statistics_configurations);
        push_opt_json(&mut members, "ExcludeFilters", &self.exclude_filters);
        Value::Object(members)
    }
}

impl ToJson for Dimension {
    open(crate) spec fn as_json(&self) -> JsonView {
        JsonView::Object(
            Seq::empty()
                + member("Value"@, &self.value)
                + member("Name"@, &self.name),
        )
    }

    fn to_json(&self) -> (r: Value) {
        let mut members: Vec<(String, Value)> = Vec::new();
        push_json(&mut members, "Value", &self.value);
        push_json(&mut members, "Name", &self.name);
        Value::Object(members)
    }
}

impl ToJson for MetricDataQuery {
    open(crate) spec fn as_json(&self) -> JsonView {
        JsonView::Object(
            Seq::empty()
                + opt_member("ReturnData"@, &self.return_data)
                + opt_member("Expression"@, &self.expression)
                + member("Id"@, &self.id)
                + opt_member("Period"@, &self.period)
                + opt_member("Label"@, &self.label)
                + opt_member("AccountId"@, &self.account_id)
                + opt_member("MetricStat"@, &self.metric_stat),
        )
    }

    fn to_json(&self) -> (r: Value) {
        let mut members: Vec<(String, Value)> = Vec::new();
        push_opt_json(&mut members, "ReturnData", &self.return_data);
        push_opt_json(&mut members, "Expression", &self.expression);
        push_json(&mut members, "Id", &self.id);
        push_opt_json(&mut members, "Period", &self.period);
        push_opt_json(&mut members, "Label", &self.label);
        push_opt_json(&mut members, "AccountId", &self.account_id);
        push_opt_json(&mut members, "MetricStat", &self.metric_stat);
        Value::Object(members)
    }
}

impl ToJson for Tag {
    open(crate) spec fn as_json(&self) -> JsonView {
        JsonView::Object(
            Seq::empty()
                + member("Value"@, &self.value)
                + member("Key"@, &self.key),
        )
    }

    fn to_json(&self) -> (r: Value) {
        let mut members: Vec<(String, Value)> = Vec::new();
        push_json(&mut members, "Value", &self.value);
        push_json(&mut members, "Key", &self.key);
        Value::Object(members)
    }
}

impl ToJson for Configuration {
    open(crate) spec fn as_json(&self) -> JsonView {
        JsonView::Object(
            Seq::empty()
                + opt_member("ExcludedTimeRanges"@, &self.excluded_time_ranges)
                + opt_member("MetricTimeZone"@, &self.metric_time_zone),
        )
    }

    fn to_json(&self) -> (r: Value) {
        let mut members: Vec<(String, Value)> = Vec::new();
        push_opt_json(&mut members, "ExcludedTimeRanges", &self.excluded_time_ranges);
        push_opt_json(&mut members, "MetricTimeZone", &self.metric_time_zone);
        Value::Object(members)
    }
}

impl ToJson for MetricCharacteristics {
    open(crate) spec fn as_json(&self) -> JsonView {
        JsonView::Object(Seq::empty() + opt_member("PeriodicSpikes"@, &self.periodic_spikes))
    }

    fn to_json(&self) -> (r: Value) {
        let mut members: Vec<(String, Value)> = Vec::new();
        push_opt_json(&mut members, "PeriodicSpikes", &self.periodic_spikes);
        Value::Object(members)
    }
}

impl ToJson for MetricMathAnomalyDetector {
    open(crate) spec fn as_json(&self) -> JsonView {
        JsonView::Object(Seq::empty() + opt_member("MetricDataQueries"@, &self.metric_data_queries))
    }

    fn to_json(&self) -> (r: Value) {
        let mut members: Vec<(String, Value)> = Vec::new();
        push_opt_json(&mut members, "MetricDataQueries", &self.metric_data_queries);
        Value::Object(members)
    }
}

impl ToJson for SingleMetricAnomalyDetector {
    open(crate) spec fn as_json(&self) -> JsonView {
        JsonView::Object(
            Seq::empty()
                + opt_member("Namespace"@, &self.namespace)
                + opt_member("Stat"@, &self.stat)
                + opt_member("Dimensions"@, &self.dimensions)
                + opt_member("AccountId"@, &self.account_id)
                + opt_member("MetricName"@, &self.metric_name),
        )
    }

    fn to_json(&self) -> (r: Value) {
        let mut members: Vec<(String, Value)> = Vec::new();
        push_opt_json(&mut members, "Namespace", &self.namespace);
        push_opt_json(&mut members, "Stat", &self.stat);
        push_opt_json(&mut members, "Dimensions", &self.dimensions);
        push_opt_json(&mut members, "AccountId", &self.account_id);
        push_opt_json(&mut members, "MetricName", &self.metric_name);
        Value::Object(members)
    }
}

impl ToJson for MetricStreamFilter {
    open(crate) spec fn as_json(&self) -> JsonView {
        JsonView::Object(
            Seq::empty()
                + opt_member("MetricNames"@, &self.metric_names)
                + member("Namespace"@, &self.namespace),
        )
    }

    fn to_json(&self) -> (r: Value) {
        let mut members: Vec<(String, Value)> = Vec::new();
        push_opt_json(&mut members, "MetricNames", &self.metric_names);
        push_json(&mut members, "Namespace", &self.namespace);
        Value::Object(members)
    }
}

impl ToJson for MetricStreamStatisticsConfiguration {
    open(crate) spec fn as_json(&self) -> JsonView {
        JsonView::Object(
            Seq::empty()
                + member("AdditionalStatistics"@, &self.additional_statistics)
                + member("IncludeMetrics"@, &self.include_metrics),
        )
    }

    fn to_json(&self) -> (r: Value) {
        let mut members: Vec<(String, Value)> = Vec::new();
        push_json(&mut members, "AdditionalStatistics", &self.additional_statistics);
        push_json(&mut members, "IncludeMetrics", &self.include_metrics);
        Value::Object(members)
    }
}

impl ToJson for MetricStat {
    open(crate) spec fn as_json(&self) -> JsonView {
        JsonView::Object(
            Seq::empty()
                + member("Period"@, &self.period)
                + opt_member("Unit"@, &self.unit)
                + member("Metric"@, &self.metric)
                + member("Stat"@, &self.stat),
        )
    }

    fn to_json(&self) -> (r: Value) {
        let mut members: Vec<(String, Value)> = Vec::new();
        push_json(&mut members, "Period", &self.period);
        push_opt_json(&mut members, "Unit", &self.unit);
        push_json(&mut members, "Metric", &self.metric);
        push_json(&mut members, "Stat", &self.stat);
        Value::Object(members)
    }
}

impl ToJson for Range {
    open(crate) spec fn as_json(&self) -> JsonView {
        JsonView::Object(
            Seq::empty()
                + member("EndTime"@, &self.end_time)
                + member("StartTime"@, &self.start_time),
        )
    }

    fn to_json(&self) -> (r: Value) {
        let mut members: Vec<(String, Value)> = Vec::new();
        push_json(&mut members, "EndTime", &self.end_time);
        push_json(&mut members, "StartTime", &self.start_time);
        Value::Object(members)
    }
}

impl ToJson for MetricStreamStatisticsMetric {
    open(crate) spec fn as_json(&self) -> JsonView {
        JsonView::Object(
            Seq::empty()
                + member("MetricName"@, &self.metric_name)
                + member("Namespace"@, &self.namespace),
        )
    }

    fn to_json(&self) -> (r: Value) {
        let mut members: Vec<(String, Value)> = Vec::new();
        push_json(&mut members, "MetricName", &self.metric_name);
        push_json(&mut members, "Namespace", &self.namespace);
        Value::Object(members)
    }
}

impl ToJson for Metric {
    open(crate) spec fn as_json(&self) -> JsonView {
        JsonView::Object(
            Seq::empty()
                + opt_member("MetricName"@, &self.metric_name)
                + opt_member("Dimensions"@, &self.dimensions)
                + opt_member("Namespace"@, &self.namespace),
        )
    }

    fn to_json(&self) -> (r: Value) {
        let mut members: Vec<(String, Value)> = Vec::new();
        push_opt_json(&mut members, "MetricName", &self.metric_name);
        push_opt_json(&mut members, "Dimensions", &self.dimensions);
        push_opt_json(&mut members, "Namespace", &self.namespace);
        Value::Object(members)
    }
}

impl ToJson for crate::cloudwatch::LogGroup {
    open(crate) spec fn as_json(&self) -> JsonView {
        JsonView::Object(Seq::empty() + member("Type"@, &self.resource_type) + member("Properties"@, &self.properties))
    }

    fn to_json(&self) -> (r: Value) {
        let mut members: Vec<(String, Value)> = Vec::new();
        push_json(&mut members, "Type", &self.resource_type);
        push_json(&mut members, "Properties", &self.properties);
        Value::Object(members)
    }
}

impl ToJson for crate::cloudwatch::LogGroupProperties {
    open(crate) spec fn as_json(&self) -> JsonView {
        JsonView::Object(
            Seq::empty()
                + opt_member("LogGroupClass"@, &self.log_group_class)
                + opt_member("LogGroupName"@, &self.log_group_name)
                + opt_member("RetentionInDays"@, &self.retention_in_days),
        )
    }

    fn to_json(&self) -> (r: Value) {
        let mut members: Vec<(String, Value)> = Vec::new();
        push_opt_json(&mut members, "LogGroupClass", &self.log_group_class);
        push_opt_json(&mut members, "LogGroupName", &self.log_group_name);
        push_opt_json(&mut members, "RetentionInDays", &self.retention_in_days);
        Value::Object(members)
    }
}

} // verus!
