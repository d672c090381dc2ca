//! Infrastructure as code for AWS CloudFormation: builders for resources,
//! collected in a stack that checks its resources before it is synthesized.
pub mod text;
pub mod json;
mod custom_resource;
pub mod apigateway;
pub mod appsync;
pub mod shared;
pub mod intrinsic;
pub mod wrappers;
pub mod lambda;
pub mod sns;
pub mod cloudwatch;
pub mod iam;
pub mod stack;
pub mod dynamodb;
pub mod events;
pub mod secretsmanager;
pub mod appconfig;
pub mod sqs;
pub mod s3;
pub mod cloudfront;
pub mod documentdb;
pub mod kms;
pub mod ecr;
pub mod resource_scraping;
pub mod lookups;
