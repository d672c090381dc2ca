# rusty_cdk

Infrastructure as code for AWS in Rust, verified with Verus: builders for CloudFormation
resources (S3, SQS, SNS, Lambda, DynamoDB, IAM, CloudWatch, CloudFront, DocumentDB, ECR, API
Gateway, AppSync, AppConfig, EventBridge Scheduler, ...), a stack that gathers them and becomes
a template, and the tools that read CloudFormation's documentation to generate new builders.

Layout:

- `src/` is the verified library. Each AWS service has a module with its DTOs (`dto.rs`), its
  builders (`builder.rs`) and how its DTOs become JSON (`template.rs`). `stack` holds the stack,
  its builder, the checks made when a stack is built (unique ids, permissions of roles), and how
  an existing deployment's logical ids are kept. `json` models the JSON of templates, `text` the
  string functions that the rest proves things with, `wrappers` the validated values that
  builders take. `resource_scraping` reads the documentation's pages and lines and generates
  sources from them; `lookups` decides what a lookup of a deployed resource found.
- `app/` holds what talks to the world: writing a stack as JSON text, looking up deployed
  resources through Cloud Control, reading manifests, the scraper's fetching and file writing,
  and the DocumentDB scaling configuration, whose capacities are floating-point numbers.
- `tests/` runs the library on concrete values.
