//! CloudWatch: alarms, anomaly detectors, dashboards, insight rules, metric streams and log groups.
mod dto;
mod builder;
mod log_group;
mod template;

pub use dto::{Alarm, AlarmProperties, AlarmPropertiesView, AlarmRef, AlarmView, AnomalyDetector, AnomalyDetectorProperties, AnomalyDetectorPropertiesView, AnomalyDetectorRef, AnomalyDetectorView, CompositeAlarm, CompositeAlarmProperties, CompositeAlarmPropertiesView, CompositeAlarmRef, CompositeAlarmView, Configuration, ConfigurationView, Dashboard, DashboardProperties, DashboardPropertiesView, DashboardRef, DashboardView, Dimension, DimensionView, InsightRule, InsightRuleProperties, InsightRulePropertiesView, InsightRuleRef, InsightRuleView, Metric, MetricCharacteristics, MetricCharacteristicsView, MetricDataQuery, MetricDataQueryView, MetricMathAnomalyDetector, MetricMathAnomalyDetectorView, MetricStat, MetricStatView, MetricStream, MetricStreamFilter, MetricStreamFilterView, MetricStreamProperties, MetricStreamPropertiesView, MetricStreamRef, MetricStreamStatisticsConfiguration, MetricStreamStatisticsConfigurationView, MetricStreamStatisticsMetric, MetricStreamStatisticsMetricView, MetricStreamView, MetricView, Range, RangeView, SingleMetricAnomalyDetector, SingleMetricAnomalyDetectorView, Tag, TagView};
pub use builder::{AlarmBuilder, AlarmBuilderView, AnomalyDetectorBuilder, AnomalyDetectorBuilderView, CompositeAlarmBuilder, CompositeAlarmBuilderView, ConfigurationBuilder, ConfigurationBuilderView, DashboardBuilder, DashboardBuilderView, DimensionBuilder, DimensionBuilderView, InsightRuleBuilder, InsightRuleBuilderView, MetricBuilder, MetricBuilderView, MetricCharacteristicsBuilder, MetricCharacteristicsBuilderView, MetricDataQueryBuilder, MetricDataQueryBuilderView, MetricMathAnomalyDetectorBuilder, MetricMathAnomalyDetectorBuilderView, MetricStatBuilder, MetricStatBuilderView, MetricStreamBuilder, MetricStreamBuilderView, MetricStreamFilterBuilder, MetricStreamFilterBuilderView, MetricStreamStatisticsConfigurationBuilder, MetricStreamStatisticsConfigurationBuilderView, MetricStreamStatisticsMetricBuilder, MetricStreamStatisticsMetricBuilderView, RangeBuilder, RangeBuilderView, SingleMetricAnomalyDetectorBuilder, SingleMetricAnomalyDetectorBuilderView, TagBuilder, TagBuilderView};
pub use log_group::{LogGroup, LogGroupBuilder, LogGroupBuilderView, LogGroupClass, LogGroupProperties, LogGroupPropertiesView, LogGroupRef, LogGroupView, log_group_class_name};
