use crate::json::Value;
use crate::shared::{arn_json, clone_opt, opt_view, ref_json, Id, RefView, RefWithIdView};
use crate::intrinsic::{get_arn, get_att, get_att_json, get_ref, string_value};

use vstd::prelude::*;

verus! {

/// A reference to a resource, which other resources use to depend on it.
pub struct PublicRepositoryRef {
    pub(crate) resource_id: String,
    pub(crate) ref_name: Option<String>,
    pub(crate) arn_value: Option<String>,
}

impl View for PublicRepositoryRef {
    type V = RefView;

    open(crate) spec fn view(&self) -> RefView {
        RefView {
            resource_id: self.resource_id@,
            ref_name: opt_view(self.ref_name),
            arn_value: opt_view(self.arn_value),
        }
    }
}

impl PublicRepositoryRef {
    pub(crate) fn internal_new(resource_id: String) -> (r: Self)
        ensures
            r@ == (RefView { resource_id: resource_id@, ref_name: None, arn_value: None }),
    {
        Self { resource_id, ref_name: None, arn_value: None }
    }

    /// A reference to a resource that exists outside the stack.
    pub fn new(resource_id: &str, ref_name: &str, arn_value: &str) -> (r: Self)
        ensures
            r@ == (RefView { resource_id: resource_id@, ref_name: Some(ref_name@), arn_value: Some(arn_value@) }),
    {
        Self {
            resource_id: String::from_str(resource_id),
            ref_name: Some(String::from_str(ref_name)),
            arn_value: Some(String::from_str(arn_value)),
        }
    }

    pub(crate) fn get_resource_id(&self) -> (r: &str)
        ensures
            r@ == self@.resource_id,
    {
        self.resource_id.as_str()
    }

    /// What `Ref` gives for the resource: the name it was imported with, or the intrinsic function.
    pub fn get_ref(&self) -> (r: Value)
        ensures
            r@ == ref_json(self@.resource_id, self@.ref_name),
    {
        match &self.ref_name {
            Some(val) => string_value(val.as_str()),
            None => get_ref(self.resource_id.as_str()),
        }
    }

    /// The ARN of the resource: the one it was imported with, or the intrinsic function.
    pub fn get_arn(&self) -> (r: Value)
        ensures
            r@ == arn_json(self@.resource_id, self@.arn_value),
    {
        match &self.arn_value {
            Some(val) => string_value(val.as_str()),
            None => get_arn(self.resource_id.as_str()),
        }
    }

    /// An attribute of the resource; not available for an imported resource.
    pub fn get_att(&self, id: &str) -> (r: Value)
        requires
            !(self@.ref_name is Some && self@.arn_value is Some),
        ensures
            r@ == get_att_json(self@.resource_id, id@),
    {
        get_att(self.resource_id.as_str(), id)
    }
}

impl Clone for PublicRepositoryRef {
    fn clone(&self) -> (r: Self)
        ensures
            r@ == self@,
    {
        Self {
            resource_id: self.resource_id.clone(),
            ref_name: clone_opt(&self.ref_name),
            arn_value: clone_opt(&self.arn_value),
        }
    }
}

/// A reference to a resource, which other resources use to depend on it.
pub struct PullThroughCacheRuleRef {
    pub(crate) resource_id: String,
    pub(crate) ref_name: Option<String>,
    pub(crate) arn_value: Option<String>,
}

impl View for PullThroughCacheRuleRef {
    type V = RefView;

    open(crate) spec fn view(&self) -> RefView {
        RefView {
            resource_id: self.resource_id@,
            ref_name: opt_view(self.ref_name),
            arn_value: opt_view(self.arn_value),
        }
    }
}

impl PullThroughCacheRuleRef {
    pub(crate) fn internal_new(resource_id: String) -> (r: Self)
        ensures
            r@ == (RefView { resource_id: resource_id@, ref_name: None, arn_value: None }),
    {
        Self { resource_id, ref_name: None, arn_value: None }
    }

    /// A reference to a resource that exists outside the stack.
    pub fn new(resource_id: &str, ref_name: &str, arn_value: &str) -> (r: Self)
        ensures
            r@ == (RefView { resource_id: resource_id@, ref_name: Some(ref_name@), arn_value: Some(arn_value@) }),
    {
        Self {
            resource_id: String::from_str(resource_id),
            ref_name: Some(String::from_str(ref_name)),
            arn_value: Some(String::from_str(arn_value)),
        }
    }

    pub(crate) fn get_resource_id(&self) -> (r: &str)
        ensures
            r@ == self@.resource_id,
    {
        self.resource_id.as_str()
    }

    /// What `Ref` gives for the resource: the name it was imported with, or the intrinsic function.
    pub fn get_ref(&self) -> (r: Value)
        ensures
            r@ == ref_json(self@.resource_id, self@.ref_name),
    {
        match &self.ref_name {
            Some(val) => string_value(val.as_str()),
            None => get_ref(self.resource_id.as_str()),
        }
    }

    /// The ARN of the resource: the one it was imported with, or the intrinsic function.
    pub fn get_arn(&self) -> (r: Value)
        ensures
            r@ == arn_json(self@.resource_id, self@.arn_value),
    {
        match &self.arn_value {
            Some(val) => string_value(val.as_str()),
            None => get_arn(self.resource_id.as_str()),
        }
    }

    /// An attribute of the resource; not available for an imported resource.
    pub fn get_att(&self, id: &str) -> (r: Value)
        requires
            !(self@.ref_name is Some && self@.arn_value is Some),
        ensures
            r@ == get_att_json(self@.resource_id, id@),
    {
        get_att(self.resource_id.as_str(), id)
    }
}

impl Clone for PullThroughCacheRuleRef {
    fn clone(&self) -> (r: Self)
        ensures
            r@ == self@,
    {
        Self {
            resource_id: self.resource_id.clone(),
            ref_name: clone_opt(&self.ref_name),
            arn_value: clone_opt(&self.arn_value),
        }
    }
}

/// A reference to a resource, which other resources use to depend on it.
pub struct PullTimeUpdateExclusionRef {
    pub(crate) resource_id: String,
    pub(crate) ref_name: Option<String>,
    pub(crate) arn_value: Option<String>,
}

impl View for PullTimeUpdateExclusionRef {
    type V = RefView;

    open(crate) spec fn view(&self) -> RefView {
        RefView {
            resource_id: self.resource_id@,
            ref_name: opt_view(self.ref_name),
            arn_value: opt_view(self.arn_value),
        }
    }
}

impl PullTimeUpdateExclusionRef {
    pub(crate) fn internal_new(resource_id: String) -> (r: Self)
        ensures
            r@ == (RefView { resource_id: resource_id@, ref_name: None, arn_value: None }),
    {
        Self { resource_id, ref_name: None, arn_value: None }
    }

    /// A reference to a resource that exists outside the stack.
    pub fn new(resource_id: &str, ref_name: &str, arn_value: &str) -> (r: Self)
        ensures
            r@ == (RefView { resource_id: resource_id@, ref_name: Some(ref_name@), arn_value: Some(arn_value@) }),
    {
        Self {
            resource_id: String::from_str(resource_id),
            ref_name: Some(String::from_str(ref_name)),
            arn_value: Some(String::from_str(arn_value)),
        }
    }

    pub(crate) fn get_resource_id(&self) -> (r: &str)
        ensures
            r@ == self@.resource_id,
    {
        self.resource_id.as_str()
    }

    /// What `Ref` gives for the resource: the name it was imported with, or the intrinsic function.
    pub fn get_ref(&self) -> (r: Value)
        ensures
            r@ == ref_json(self@.resource_id, self@.ref_name),
    {
        match &self.ref_name {
            Some(val) => string_value(val.as_str()),
            None => get_ref(self.resource_id.as_str()),
        }
    }

    /// The ARN of the resource: the one it was imported with, or the intrinsic function.
    pub fn get_arn(&self) -> (r: Value)
        ensures
            r@ == arn_json(self@.resource_id, self@.arn_value),
    {
        match &self.arn_value {
            Some(val) => string_value(val.as_str()),
            None => get_arn(self.resource_id.as_str()),
        }
    }

    /// An attribute of the resource; not available for an imported resource.
    pub fn get_att(&self, id: &str) -> (r: Value)
        requires
            !(self@.ref_name is Some && self@.arn_value is Some),
        ensures
            r@ == get_att_json(self@.resource_id, id@),
    {
        get_att(self.resource_id.as_str(), id)
    }
}

impl Clone for PullTimeUpdateExclusionRef {
    fn clone(&self) -> (r: Self)
        ensures
            r@ == self@,
    {
        Self {
            resource_id: self.resource_id.clone(),
            ref_name: clone_opt(&self.ref_name),
            arn_value: clone_opt(&self.arn_value),
        }
    }
}

/// A reference to a resource, which other resources use to depend on it.
pub struct RegistryPolicyRef {
    pub(crate) resource_id: String,
    pub(crate) ref_name: Option<String>,
    pub(crate) arn_value: Option<String>,
}

impl View for RegistryPolicyRef {
    type V = RefView;

    open(crate) spec fn view(&self) -> RefView {
        RefView {
            resource_id: self.resource_id@,
            ref_name: opt_view(self.ref_name),
            arn_value: opt_view(self.arn_value),
        }
    }
}

impl RegistryPolicyRef {
    pub(crate) fn internal_new(resource_id: String) -> (r: Self)
        ensures
            r@ == (RefView { resource_id: resource_id@, ref_name: None, arn_value: None }),
    {
        Self { resource_id, ref_name: None, arn_value: None }
    }

    /// A reference to a resource that exists outside the stack.
    pub fn new(resource_id: &str, ref_name: &str, arn_value: &str) -> (r: Self)
        ensures
            r@ == (RefView { resource_id: resource_id@, ref_name: Some(ref_name@), arn_value: Some(arn_value@) }),
    {
        Self {
            resource_id: String::from_str(resource_id),
            ref_name: Some(String::from_str(ref_name)),
            arn_value: Some(String::from_str(arn_value)),
        }
    }

    pub(crate) fn get_resource_id(&self) -> (r: &str)
        ensures
            r@ == self@.resource_id,
    {
        self.resource_id.as_str()
    }

    /// What `Ref` gives for the resource: the name it was imported with, or the intrinsic function.
    pub fn get_ref(&self) -> (r: Value)
        ensures
            r@ == ref_json(self@.resource_id, self@.ref_name),
    {
        match &self.ref_name {
            Some(val) => string_value(val.as_str()),
            None => get_ref(self.resource_id.as_str()),
        }
    }

    /// The ARN of the resource: the one it was imported with, or the intrinsic function.
    pub fn get_arn(&self) -> (r: Value)
        ensures
            r@ == arn_json(self@.resource_id, self@.arn_value),
    {
        match &self.arn_value {
            Some(val) => string_value(val.as_str()),
            None => get_arn(self.resource_id.as_str()),
        }
    }

    /// An attribute of the resource; not available for an imported resource.
    pub fn get_att(&self, id: &str) -> (r: Value)
        requires
            !(self@.ref_name is Some && self@.arn_value is Some),
        ensures
            r@ == get_att_json(self@.resource_id, id@),
    {
        get_att(self.resource_id.as_str(), id)
    }
}

impl Clone for RegistryPolicyRef {
    fn clone(&self) -> (r: Self)
        ensures
            r@ == self@,
    {
        Self {
            resource_id: self.resource_id.clone(),
            ref_name: clone_opt(&self.ref_name),
            arn_value: clone_opt(&self.arn_value),
        }
    }
}

/// A reference to a resource, which other resources use to depend on it.
pub struct RegistryScanningConfigurationRef {
    pub(crate) resource_id: String,
    pub(crate) ref_name: Option<String>,
    pub(crate) arn_value: Option<String>,
}

impl View for RegistryScanningConfigurationRef {
    type V = RefView;

    open(crate) spec fn view(&self) -> RefView {
        RefView {
            resource_id: self.resource_id@,
            ref_name: opt_view(self.ref_name),
            arn_value: opt_view(self.arn_value),
        }
    }
}

impl RegistryScanningConfigurationRef {
    pub(crate) fn internal_new(resource_id: String) -> (r: Self)
        ensures
            r@ == (RefView { resource_id: resource_id@, ref_name: None, arn_value: None }),
    {
        Self { resource_id, ref_name: None, arn_value: None }
    }

    /// A reference to a resource that exists outside the stack.
    pub fn new(resource_id: &str, ref_name: &str, arn_value: &str) -> (r: Self)
        ensures
            r@ == (RefView { resource_id: resource_id@, ref_name: Some(ref_name@), arn_value: Some(arn_value@) }),
    {
        Self {
            resource_id: String::from_str(resource_id),
            ref_name: Some(String::from_str(ref_name)),
            arn_value: Some(String::from_str(arn_value)),
        }
    }

    pub(crate) fn get_resource_id(&self) -> (r: &str)
        ensures
            r@ == self@.resource_id,
    {
        self.resource_id.as_str()
    }

    /// What `Ref` gives for the resource: the name it was imported with, or the intrinsic function.
    pub fn get_ref(&self) -> (r: Value)
        ensures
            r@ == ref_json(self@.resource_id, self@.ref_name),
    {
        match &self.ref_name {
            Some(val) => string_value(val.as_str()),
            None => get_ref(self.resource_id.as_str()),
        }
    }

    /// The ARN of the resource: the one it was imported with, or the intrinsic function.
    pub fn get_arn(&self) -> (r: Value)
        ensures
            r@ == arn_json(self@.resource_id, self@.arn_value),
    {
        match &self.arn_value {
            Some(val) => string_value(val.as_str()),
            None => get_arn(self.resource_id.as_str()),
        }
    }

    /// An attribute of the resource; not available for an imported resource.
    pub fn get_att(&self, id: &str) -> (r: Value)
        requires
            !(self@.ref_name is Some && self@.arn_value is Some),
        ensures
            r@ == get_att_json(self@.resource_id, id@),
    {
        get_att(self.resource_id.as_str(), id)
    }
}

impl Clone for RegistryScanningConfigurationRef {
    fn clone(&self) -> (r: Self)
        ensures
            r@ == self@,
    {
        Self {
            resource_id: self.resource_id.clone(),
            ref_name: clone_opt(&self.ref_name),
            arn_value: clone_opt(&self.arn_value),
        }
    }
}

/// A reference to a resource, which other resources use to depend on it.
pub struct ReplicationConfigurationRef {
    pub(crate) resource_id: String,
    pub(crate) ref_name: Option<String>,
    pub(crate) arn_value: Option<String>,
}

impl View for ReplicationConfigurationRef {
    type V = RefView;

    open(crate) spec fn view(&self) -> RefView {
        RefView {
            resource_id: self.resource_id@,
            ref_name: opt_view(self.ref_name),
            arn_value: opt_view(self.arn_value),
        }
    }
}

impl ReplicationConfigurationRef {
    pub(crate) fn internal_new(resource_id: String) -> (r: Self)
        ensures
            r@ == (RefView { resource_id: resource_id@, ref_name: None, arn_value: None }),
    {
        Self { resource_id, ref_name: None, arn_value: None }
    }

    /// A reference to a resource that exists outside the stack.
    pub fn new(resource_id: &str, ref_name: &str, arn_value: &str) -> (r: Self)
        ensures
            r@ == (RefView { resource_id: resource_id@, ref_name: Some(ref_name@), arn_value: Some(arn_value@) }),
    {
        Self {
            resource_id: String::from_str(resource_id),
            ref_name: Some(String::from_str(ref_name)),
            arn_value: Some(String::from_str(arn_value)),
        }
    }

    pub(crate) fn get_resource_id(&self) -> (r: &str)
        ensures
            r@ == self@.resource_id,
    {
        self.resource_id.as_str()
    }

    /// What `Ref` gives for the resource: the name it was imported with, or the intrinsic function.
    pub fn get_ref(&self) -> (r: Value)
        ensures
            r@ == ref_json(self@.resource_id, self@.ref_name),
    {
        match &self.ref_name {
            Some(val) => string_value(val.as_str()),
            None => get_ref(self.resource_id.as_str()),
        }
    }

    /// The ARN of the resource: the one it was imported with, or the intrinsic function.
    pub fn get_arn(&self) -> (r: Value)
        ensures
            r@ == arn_json(self@.resource_id, self@.arn_value),
    {
        match &self.arn_value {
            Some(val) => string_value(val.as_str()),
            None => get_arn(self.resource_id.as_str()),
        }
    }

    /// An attribute of the resource; not available for an imported resource.
    pub fn get_att(&self, id: &str) -> (r: Value)
        requires
            !(self@.ref_name is Some && self@.arn_value is Some),
        ensures
            r@ == get_att_json(self@.resource_id, id@),
    {
        get_att(self.resource_id.as_str(), id)
    }
}

impl Clone for ReplicationConfigurationRef {
    fn clone(&self) -> (r: Self)
        ensures
            r@ == self@,
    {
        Self {
            resource_id: self.resource_id.clone(),
            ref_name: clone_opt(&self.ref_name),
            arn_value: clone_opt(&self.arn_value),
        }
    }
}

/// A reference to a resource, which other resources use to depend on it.
pub struct RepositoryRef {
    pub(crate) resource_id: String,
    pub(crate) ref_name: Option<String>,
    pub(crate) arn_value: Option<String>,
}

impl View for RepositoryRef {
    type V = RefView;

    open(crate) spec fn view(&self) -> RefView {
        RefView {
            resource_id: self.resource_id@,
            ref_name: opt_view(self.ref_name),
            arn_value: opt_view(self.arn_value),
        }
    }
}

impl RepositoryRef {
    pub(crate) fn internal_new(resource_id: String) -> (r: Self)
        ensures
            r@ == (RefView { resource_id: resource_id@, ref_name: None, arn_value: None }),
    {
        Self { resource_id, ref_name: None, arn_value: None }
    }

    /// A reference to a resource that exists outside the stack.
    pub fn new(resource_id: &str, ref_name: &str, arn_value: &str) -> (r: Self)
        ensures
            r@ == (RefView { resource_id: resource_id@, ref_name: Some(ref_name@), arn_value: Some(arn_value@) }),
    {
        Self {
            resource_id: String::from_str(resource_id),
            ref_name: Some(String::from_str(ref_name)),
            arn_value: Some(String::from_str(arn_value)),
        }
    }

    pub(crate) fn get_resource_id(&self) -> (r: &str)
        ensures
            r@ == self@.resource_id,
    {
        self.resource_id.as_str()
    }

    /// What `Ref` gives for the resource: the name it was imported with, or the intrinsic function.
    pub fn get_ref(&self) -> (r: Value)
        ensures
            r@ == ref_json(self@.resource_id, self@.ref_name),
    {
        match &self.ref_name {
            Some(val) => string_value(val.as_str()),
            None => get_ref(self.resource_id.as_str()),
        }
    }

    /// The ARN of the resource: the one it was imported with, or the intrinsic function.
    pub fn get_arn(&self) -> (r: Value)
        ensures
            r@ == arn_json(self@.resource_id, self@.arn_value),
    {
        match &self.arn_value {
            Some(val) => string_value(val.as_str()),
            None => get_arn(self.resource_id.as_str()),
        }
    }

    /// An attribute of the resource; not available for an imported resource.
    pub fn get_att(&self, id: &str) -> (r: Value)
        requires
            !(self@.ref_name is Some && self@.arn_value is Some),
        ensures
            r@ == get_att_json(self@.resource_id, id@),
    {
        get_att(self.resource_id.as_str(), id)
    }
}

impl Clone for RepositoryRef {
    fn clone(&self) -> (r: Self)
        ensures
            r@ == self@,
    {
        Self {
            resource_id: self.resource_id.clone(),
            ref_name: clone_opt(&self.ref_name),
            arn_value: clone_opt(&self.arn_value),
        }
    }
}

/// A reference to a resource, which other resources use to depend on it.
pub struct SigningConfigurationRef {
    pub(crate) resource_id: String,
    pub(crate) ref_name: Option<String>,
    pub(crate) arn_value: Option<String>,
}

impl View for SigningConfigurationRef {
    type V = RefView;

    open(crate) spec fn view(&self) -> RefView {
        RefView {
            resource_id: self.resource_id@,
            ref_name: opt_view(self.ref_name),
            arn_value: opt_view(self.arn_value),
        }
    }
}

impl SigningConfigurationRef {
    pub(crate) fn internal_new(resource_id: String) -> (r: Self)
        ensures
            r@ == (RefView { resource_id: resource_id@, ref_name: None, arn_value: None }),
    {
        Self { resource_id, ref_name: None, arn_value: None }
    }

    /// A reference to a resource that exists outside the stack.
    pub fn new(resource_id: &str, ref_name: &str, arn_value: &str) -> (r: Self)
        ensures
            r@ == (RefView { resource_id: resource_id@, ref_name: Some(ref_name@), arn_value: Some(arn_value@) }),
    {
        Self {
            resource_id: String::from_str(resource_id),
            ref_name: Some(String::from_str(ref_name)),
            arn_value: Some(String::from_str(arn_value)),
        }
    }

    pub(crate) fn get_resource_id(&self) -> (r: &str)
        ensures
            r@ == self@.resource_id,
    {
        self.resource_id.as_str()
    }

    /// What `Ref` gives for the resource: the name it was imported with, or the intrinsic function.
    pub fn get_ref(&self) -> (r: Value)
        ensures
            r@ == ref_json(self@.resource_id, self@.ref_name),
    {
        match &self.ref_name {
            Some(val) => string_value(val.as_str()),
            None => get_ref(self.resource_id.as_str()),
        }
    }

    /// The ARN of the resource: the one it was imported with, or the intrinsic function.
    pub fn get_arn(&self) -> (r: Value)
        ensures
            r@ == arn_json(self@.resource_id, self@.arn_value),
    {
        match &self.arn_value {
            Some(val) => string_value(val.as_str()),
            None => get_arn(self.resource_id.as_str()),
        }
    }

    /// An attribute of the resource; not available for an imported resource.
    pub fn get_att(&self, id: &str) -> (r: Value)
        requires
            !(self@.ref_name is Some && self@.arn_value is Some),
        ensures
            r@ == get_att_json(self@.resource_id, id@),
    {
        get_att(self.resource_id.as_str(), id)
    }
}

impl Clone for SigningConfigurationRef {
    fn clone(&self) -> (r: Self)
        ensures
            r@ == self@,
    {
        Self {
            resource_id: self.resource_id.clone(),
            ref_name: clone_opt(&self.ref_name),
            arn_value: clone_opt(&self.arn_value),
        }
    }
}

/// A public ECR repository.
pub struct PublicRepository {
    pub(crate) id: Id,
    pub(crate) resource_id: String,
    pub(crate) resource_type: String,
    pub(crate) properties: PublicRepositoryProperties,
}

/// What a [`PublicRepository`] holds.
pub struct PublicRepositoryView {
    pub id: Id,
    pub resource_id: String,
    pub resource_type: String,
    pub properties: PublicRepositoryProperties,
}

impl View for PublicRepository {
    type V = PublicRepositoryView;

    open(crate) spec fn view(&self) -> PublicRepositoryView {
        PublicRepositoryView {
            id: self.id,
            resource_id: self.resource_id,
            resource_type: self.resource_type,
            properties: self.properties,
        }
    }
}

impl PublicRepository {
    pub fn get_id(&self) -> (r: &Id)
        ensures
            *r == self@.id,
    {
        &self.id
    }

    pub fn get_resource_id(&self) -> (r: &str)
        ensures
            r@ == self@.resource_id@,
    {
        self.resource_id.as_str()
    }

    pub fn get_type(&self) -> (r: &str)
        ensures
            r@ == self@.resource_type@,
    {
        self.resource_type.as_str()
    }
}

/// Part of the PublicRepositoryProperties configuration.
pub struct PublicRepositoryProperties {
    pub(crate) repository_catalog_data: Option<RepositoryCatalogData>,
    pub(crate) repository_policy_text: Option<Value>,
    pub(crate) repository_name: Option<String>,
}

/// What a [`PublicRepositoryProperties`] holds.
pub struct PublicRepositoryPropertiesView {
    pub repository_catalog_data: Option<RepositoryCatalogData>,
    pub repository_policy_text: Option<Value>,
    pub repository_name: Option<String>,
}

impl View for PublicRepositoryProperties {
    type V = PublicRepositoryPropertiesView;

    open(crate) spec fn view(&self) -> PublicRepositoryPropertiesView {
        PublicRepositoryPropertiesView {
            repository_catalog_data: self.repository_catalog_data,
            repository_policy_text: self.repository_policy_text,
            repository_name: self.repository_name,
        }
    }
}

/// Part of the RepositoryCatalogData configuration.
pub struct RepositoryCatalogData {
    pub(crate) about_text: Option<String>,
    pub(crate) architectures: Option<Vec<String>>,
    pub(crate) operating_systems: Option<Vec<String>>,
    pub(crate) repository_description: Option<String>,
    pub(crate) usage_text: Option<String>,
}

/// What a [`RepositoryCatalogData`] holds.
pub struct RepositoryCatalogDataView {
    pub about_text: Option<String>,
    pub architectures: Option<Vec<String>>,
    pub operating_systems: Option<Vec<String>>,
    pub repository_description: Option<String>,
    pub usage_text: Option<String>,
}

impl View for RepositoryCatalogData {
    type V = RepositoryCatalogDataView;

    open(crate) spec fn view(&self) -> RepositoryCatalogDataView {
        RepositoryCatalogDataView {
            about_text: self.about_text,
            architectures: self.architectures,
            operating_systems: self.operating_systems,
            repository_description: self.repository_description,
            usage_text: self.usage_text,
        }
    }
}

/// A rule that caches the images of an upstream registry in ECR.
pub struct PullThroughCacheRule {
    pub(crate) id: Id,
    pub(crate) resource_id: String,
    pub(crate) resource_type: String,
    pub(crate) properties: PullThroughCacheRuleProperties,
}

/// What a [`PullThroughCacheRule`] holds.
pub struct PullThroughCacheRuleView {
    pub id: Id,
    pub resource_id: String,
    pub resource_type: String,
    pub properties: PullThroughCacheRuleProperties,
}

impl View for PullThroughCacheRule {
    type V = PullThroughCacheRuleView;

    open(crate) spec fn view(&self) -> PullThroughCacheRuleView {
        PullThroughCacheRuleView {
            id: self.id,
            resource_id: self.resource_id,
            resource_type: self.resource_type,
            properties: self.properties,
        }
    }
}

impl PullThroughCacheRule {
    pub fn get_id(&self) -> (r: &Id)
        ensures
            *r == self@.id,
    {
        &self.id
    }

    pub fn get_resource_id(&self) -> (r: &str)
        ensures
            r@ == self@.resource_id@,
    {
        self.resource_id.as_str()
    }

    pub fn get_type(&self) -> (r: &str)
        ensures
            r@ == self@.resource_type@,
    {
        self.resource_type.as_str()
    }
}

/// Part of the PullThroughCacheRuleProperties configuration.
pub struct PullThroughCacheRuleProperties {
    pub(crate) upstream_repository_prefix: Option<String>,
    pub(crate) credential_arn: Option<Value>,
    pub(crate) upstream_registry_url: Option<String>,
    pub(crate) custom_role_arn: Option<Value>,
    pub(crate) ecr_repository_prefix: Option<String>,
    pub(crate) upstream_registry: Option<String>,
}

/// What a [`PullThroughCacheRuleProperties`] holds.
pub struct PullThroughCacheRulePropertiesView {
    pub upstream_repository_prefix: Option<String>,
    pub credential_arn: Option<Value>,
    pub upstream_registry_url: Option<String>,
    pub custom_role_arn: Option<Value>,
    pub ecr_repository_prefix: Option<String>,
    pub upstream_registry: Option<String>,
}

impl View for PullThroughCacheRuleProperties {
    type V = PullThroughCacheRulePropertiesView;

    open(crate) spec fn view(&self) -> PullThroughCacheRulePropertiesView {
        PullThroughCacheRulePropertiesView {
            upstream_repository_prefix: self.upstream_repository_prefix,
            credential_arn: self.credential_arn,
            upstream_registry_url: self.upstream_registry_url,
            custom_role_arn: self.custom_role_arn,
            ecr_repository_prefix: self.ecr_repository_prefix,
            upstream_registry: self.upstream_registry,
        }
    }
}

/// A principal whose image pulls do not update the pull time of images.
pub struct PullTimeUpdateExclusion {
    pub(crate) id: Id,
    pub(crate) resource_id: String,
    pub(crate) resource_type: String,
    pub(crate) properties: PullTimeUpdateExclusionProperties,
}

/// What a [`PullTimeUpdateExclusion`] holds.
pub struct PullTimeUpdateExclusionView {
    pub id: Id,
    pub resource_id: String,
    pub resource_type: String,
    pub properties: PullTimeUpdateExclusionProperties,
}

impl View for PullTimeUpdateExclusion {
    type V = PullTimeUpdateExclusionView;

    open(crate) spec fn view(&self) -> PullTimeUpdateExclusionView {
        PullTimeUpdateExclusionView {
            id: self.id,
            resource_id: self.resource_id,
            resource_type: self.resource_type,
            properties: self.properties,
        }
    }
}

impl PullTimeUpdateExclusion {
    pub fn get_id(&self) -> (r: &Id)
        ensures
            *r == self@.id,
    {
        &self.id
    }

    pub fn get_resource_id(&self) -> (r: &str)
        ensures
            r@ == self@.resource_id@,
    {
        self.resource_id.as_str()
    }

    pub fn get_type(&self) -> (r: &str)
        ensures
            r@ == self@.resource_type@,
    {
        self.resource_type.as_str()
    }
}

/// Part of the PullTimeUpdateExclusionProperties configuration.
pub struct PullTimeUpdateExclusionProperties {
    pub(crate) principal_arn: Value,
}

/// What a [`PullTimeUpdateExclusionProperties`] holds.
pub struct PullTimeUpdateExclusionPropertiesView {
    pub principal_arn: Value,
}

impl View for PullTimeUpdateExclusionProperties {
    type V = PullTimeUpdateExclusionPropertiesView;

    open(crate) spec fn view(&self) -> PullTimeUpdateExclusionPropertiesView {
        PullTimeUpdateExclusionPropertiesView {
            principal_arn: self.principal_arn,
        }
    }
}

/// The policy of an ECR registry.
pub struct RegistryPolicy {
    pub(crate) id: Id,
    pub(crate) resource_id: String,
    pub(crate) resource_type: String,
    pub(crate) properties: RegistryPolicyProperties,
}

/// What a [`RegistryPolicy`] holds.
pub struct RegistryPolicyView {
    pub id: Id,
    pub resource_id: String,
    pub resource_type: String,
    pub properties: RegistryPolicyProperties,
}

impl View for RegistryPolicy {
    type V = RegistryPolicyView;

    open(crate) spec fn view(&self) -> RegistryPolicyView {
        RegistryPolicyView {
            id: self.id,
            resource_id: self.resource_id,
            resource_type: self.resource_type,
            properties: self.properties,
        }
    }
}

impl RegistryPolicy {
    pub fn get_id(&self) -> (r: &Id)
        ensures
            *r == self@.id,
    {
        &self.id
    }

    pub fn get_resource_id(&self) -> (r: &str)
        ensures
            r@ == self@.resource_id@,
    {
        self.resource_id.as_str()
    }

    pub fn get_type(&self) -> (r: &str)
        ensures
            r@ == self@.resource_type@,
    {
        self.resource_type.as_str()
    }
}

/// Part of the RegistryPolicyProperties configuration.
pub struct RegistryPolicyProperties {
    pub(crate) policy_text: Value,
}

/// What a [`RegistryPolicyProperties`] holds.
pub struct RegistryPolicyPropertiesView {
    pub policy_text: Value,
}

impl View for RegistryPolicyProperties {
    type V = RegistryPolicyPropertiesView;

    open(crate) spec fn view(&self) -> RegistryPolicyPropertiesView {
        RegistryPolicyPropertiesView {
            policy_text: self.policy_text,
        }
    }
}

/// How the images of an ECR registry are scanned.
pub struct RegistryScanningConfiguration {
    pub(crate) id: Id,
    pub(crate) resource_id: String,
    pub(crate) resource_type: String,
    pub(crate) properties: RegistryScanningConfigurationProperties,
}

/// What a [`RegistryScanningConfiguration`] holds.
pub struct RegistryScanningConfigurationView {
    pub id: Id,
    pub resource_id: String,
    pub resource_type: String,
    pub properties: RegistryScanningConfigurationProperties,
}

impl View for RegistryScanningConfiguration {
    type V = RegistryScanningConfigurationView;

    open(crate) spec fn view(&self) -> RegistryScanningConfigurationView {
        RegistryScanningConfigurationView {
            id: self.id,
            resource_id: self.resource_id,
            resource_type: self.resource_type,
            properties: self.properties,
        }
    }
}

impl RegistryScanningConfiguration {
    pub fn get_id(&self) -> (r: &Id)
        ensures
            *r == self@.id,
    {
        &self.id
    }

    pub fn get_resource_id(&self) -> (r: &str)
        ensures
            r@ == self@.resource_id@,
    {
        self.resource_id.as_str()
    }

    pub fn get_type(&self) -> (r: &str)
        ensures
            r@ == self@.resource_type@,
    {
        self.resource_type.as_str()
    }
}

/// Part of the RegistryScanningConfigurationProperties configuration.
pub struct RegistryScanningConfigurationProperties {
    pub(crate) scan_type: String,
    pub(crate) rules: Vec<ScanningRule>,
}

/// What a [`RegistryScanningConfigurationProperties`] holds.
pub struct RegistryScanningConfigurationPropertiesView {
    pub scan_type: String,
    pub rules: Vec<ScanningRule>,
}

impl View for RegistryScanningConfigurationProperties {
    type V = RegistryScanningConfigurationPropertiesView;

    open(crate) spec fn view(&self) -> RegistryScanningConfigurationPropertiesView {
        RegistryScanningConfigurationPropertiesView {
            scan_type: self.scan_type,
            rules: self.rules,
        }
    }
}

/// Part of the ScanningRule configuration.
pub struct ScanningRule {
    pub(crate) scan_frequency: String,
    pub(crate) repository_filters: Vec<RepositoryFilter>,
}

/// What a [`ScanningRule`] holds.
pub struct ScanningRuleView {
    pub scan_frequency: String,
    pub repository_filters: Vec<RepositoryFilter>,
}

impl View for ScanningRule {
    type V = ScanningRuleView;

    open(crate) spec fn view(&self) -> ScanningRuleView {
        ScanningRuleView {
            scan_frequency: self.scan_frequency,
            repository_filters: self.repository_filters,
        }
    }
}

/// How the images of an ECR registry are replicated.
pub struct ReplicationConfiguration {
    pub(crate) id: Id,
    pub(crate) resource_id: String,
    pub(crate) resource_type: String,
    pub(crate) properties: ReplicationConfigurationProperties,
}

/// What a [`ReplicationConfiguration`] holds.
pub struct ReplicationConfigurationView {
    pub id: Id,
    pub resource_id: String,
    pub resource_type: String,
    pub properties: ReplicationConfigurationProperties,
}

impl View for ReplicationConfiguration {
    type V = ReplicationConfigurationView;

    open(crate) spec fn view(&self) -> ReplicationConfigurationView {
        ReplicationConfigurationView {
            id: self.id,
            resource_id: self.resource_id,
            resource_type: self.resource_type,
            properties: self.properties,
        }
    }
}

impl ReplicationConfiguration {
    pub fn get_id(&self) -> (r: &Id)
        ensures
            *r == self@.id,
    {
        &self.id
    }

    pub fn get_resource_id(&self) -> (r: &str)
        ensures
            r@ == self@.resource_id@,
    {
        self.resource_id.as_str()
    }

    pub fn get_type(&self) -> (r: &str)
        ensures
            r@ == self@.resource_type@,
    {
        self.resource_type.as_str()
    }
}

/// Part of the ReplicationConfigurationProperties configuration.
pub struct ReplicationConfigurationProperties {
    pub(crate) replication_configuration: ReplicationConfigurationReplicationConfiguration,
}

/// What a [`ReplicationConfigurationProperties`] holds.
pub struct ReplicationConfigurationPropertiesView {
    pub replication_configuration: ReplicationConfigurationReplicationConfiguration,
}

impl View for ReplicationConfigurationProperties {
    type V = ReplicationConfigurationPropertiesView;

    open(crate) spec fn view(&self) -> ReplicationConfigurationPropertiesView {
        ReplicationConfigurationPropertiesView {
            replication_configuration: self.replication_configuration,
        }
    }
}

/// Part of the ReplicationConfigurationReplicationConfiguration configuration.
pub struct ReplicationConfigurationReplicationConfiguration {
    pub(crate) rules: Vec<ReplicationRule>,
}

/// What a [`ReplicationConfigurationReplicationConfiguration`] holds.
pub struct ReplicationConfigurationReplicationConfigurationView {
    pub rules: Vec<ReplicationRule>,
}

impl View for ReplicationConfigurationReplicationConfiguration {
    type V = ReplicationConfigurationReplicationConfigurationView;

    open(crate) spec fn view(&self) -> ReplicationConfigurationReplicationConfigurationView {
        ReplicationConfigurationReplicationConfigurationView {
            rules: self.rules,
        }
    }
}

/// Part of the ReplicationRule configuration.
pub struct ReplicationRule {
    pub(crate) destinations: Vec<ReplicationDestination>,
    pub(crate) repository_filters: Option<Vec<RepositoryFilter>>,
}

/// What a [`ReplicationRule`] holds.
pub struct ReplicationRuleView {
    pub destinations: Vec<ReplicationDestination>,
    pub repository_filters: Option<Vec<RepositoryFilter>>,
}

impl View for ReplicationRule {
    type V = ReplicationRuleView;

    open(crate) spec fn view(&self) -> ReplicationRuleView {
        ReplicationRuleView {
            destinations: self.destinations,
            repository_filters: self.repository_filters,
        }
    }
}

/// Part of the ReplicationDestination configuration.
pub struct ReplicationDestination {
    pub(crate) region: String,
    pub(crate) registry_id: String,
}

/// What a [`ReplicationDestination`] holds.
pub struct ReplicationDestinationView {
    pub region: String,
    pub registry_id: String,
}

impl View for ReplicationDestination {
    type V = ReplicationDestinationView;

    open(crate) spec fn view(&self) -> ReplicationDestinationView {
        ReplicationDestinationView {
            region: self.region,
            registry_id: self.registry_id,
        }
    }
}

/// A private ECR repository.
pub struct Repository {
    pub(crate) id: Id,
    pub(crate) resource_id: String,
    pub(crate) resource_type: String,
    pub(crate) properties: RepositoryProperties,
}

/// What a [`Repository`] holds.
pub struct RepositoryView {
    pub id: Id,
    pub resource_id: String,
    pub resource_type: String,
    pub properties: RepositoryProperties,
}

impl View for Repository {
    type V = RepositoryView;

    open(crate) spec fn view(&self) -> RepositoryView {
        RepositoryView {
            id: self.id,
            resource_id: self.resource_id,
            resource_type: self.resource_type,
            properties: self.properties,
        }
    }
}

impl Repository {
    pub fn get_id(&self) -> (r: &Id)
        ensures
            *r == self@.id,
    {
        &self.id
    }

    pub fn get_resource_id(&self) -> (r: &str)
        ensures
            r@ == self@.resource_id@,
    {
        self.resource_id.as_str()
    }

    pub fn get_type(&self) -> (r: &str)
        ensures
            r@ == self@.resource_type@,
    {
        self.resource_type.as_str()
    }
}

/// Part of the RepositoryProperties configuration.
pub struct RepositoryProperties {
    pub(crate) image_tag_mutability: Option<String>,
    pub(crate) repository_policy_text: Option<Value>,
    pub(crate) image_tag_mutability_exclusion_filters: Option<Vec<ImageTagMutabilityExclusionFilter>>,
    pub(crate) encryption_configuration: Option<EncryptionConfiguration>,
    pub(crate) lifecycle_policy: Option<LifecyclePolicy>,
    pub(crate) empty_on_delete: Option<bool>,
    pub(crate) image_scanning_configuration: Option<ImageScanningConfiguration>,
    pub(crate) repository_name: Option<String>,
}

/// What a [`RepositoryProperties`] holds.
pub struct RepositoryPropertiesView {
    pub image_tag_mutability: Option<String>,
    pub repository_policy_text: Option<Value>,
    pub image_tag_mutability_exclusion_filters: Option<Vec<ImageTagMutabilityExclusionFilter>>,
    pub encryption_configuration: Option<EncryptionConfiguration>,
    pub lifecycle_policy: Option<LifecyclePolicy>,
    pub empty_on_delete: Option<bool>,
    pub image_scanning_configuration: Option<ImageScanningConfiguration>,
    pub repository_name: Option<String>,
}

impl View for RepositoryProperties {
    type V = RepositoryPropertiesView;

    open(crate) spec fn view(&self) -> RepositoryPropertiesView {
        RepositoryPropertiesView {
            image_tag_mutability: self.image_tag_mutability,
            repository_policy_text: self.repository_policy_text,
            image_tag_mutability_exclusion_filters: self.image_tag_mutability_exclusion_filters,
            encryption_configuration: self.encryption_configuration,
            lifecycle_policy: self.lifecycle_policy,
            empty_on_delete: self.empty_on_delete,
            image_scanning_configuration: self.image_scanning_configuration,
            repository_name: self.repository_name,
        }
    }
}

/// Part of the ImageTagMutabilityExclusionFilter configuration.
pub struct ImageTagMutabilityExclusionFilter {
    pub(crate) image_tag_mutability_exclusion_filter_value: String,
    pub(crate) image_tag_mutability_exclusion_filter_type: String,
}

/// What a [`ImageTagMutabilityExclusionFilter`] holds.
pub struct ImageTagMutabilityExclusionFilterView {
    pub image_tag_mutability_exclusion_filter_value: String,
    pub image_tag_mutability_exclusion_filter_type: String,
}

impl View for ImageTagMutabilityExclusionFilter {
    type V = ImageTagMutabilityExclusionFilterView;

    open(crate) spec fn view(&self) -> ImageTagMutabilityExclusionFilterView {
        ImageTagMutabilityExclusionFilterView {
            image_tag_mutability_exclusion_filter_value: self.image_tag_mutability_exclusion_filter_value,
            image_tag_mutability_exclusion_filter_type: self.image_tag_mutability_exclusion_filter_type,
        }
    }
}

/// Part of the EncryptionConfiguration configuration.
pub struct EncryptionConfiguration {
    pub(crate) encryption_type: String,
    pub(crate) kms_key: Option<Value>,
}

/// What a [`EncryptionConfiguration`] holds.
pub struct EncryptionConfigurationView {
    pub encryption_type: String,
    pub kms_key: Option<Value>,
}

impl View for EncryptionConfiguration {
    type V = EncryptionConfigurationView;

    open(crate) spec fn view(&self) -> EncryptionConfigurationView {
        EncryptionConfigurationView {
            encryption_type: self.encryption_type,
            kms_key: self.kms_key,
        }
    }
}

/// Part of the LifecyclePolicy configuration.
pub struct LifecyclePolicy {
    pub(crate) registry_id: Option<String>,
    pub(crate) lifecycle_policy_text: Option<String>,
}

/// What a [`LifecyclePolicy`] holds.
pub struct LifecyclePolicyView {
    pub registry_id: Option<String>,
    pub lifecycle_policy_text: Option<String>,
}

impl View for LifecyclePolicy {
    type V = LifecyclePolicyView;

    open(crate) spec fn view(&self) -> LifecyclePolicyView {
        LifecyclePolicyView {
            registry_id: self.registry_id,
            lifecycle_policy_text: self.lifecycle_policy_text,
        }
    }
}

/// Part of the ImageScanningConfiguration configuration.
pub struct ImageScanningConfiguration {
    pub(crate) scan_on_push: Option<bool>,
}

/// What a [`ImageScanningConfiguration`] holds.
pub struct ImageScanningConfigurationView {
    pub scan_on_push: Option<bool>,
}

impl View for ImageScanningConfiguration {
    type V = ImageScanningConfigurationView;

    open(crate) spec fn view(&self) -> ImageScanningConfigurationView {
        ImageScanningConfigurationView {
            scan_on_push: self.scan_on_push,
        }
    }
}

/// How the images of an ECR registry are signed.
pub struct SigningConfiguration {
    pub(crate) id: Id,
    pub(crate) resource_id: String,
    pub(crate) resource_type: String,
    pub(crate) properties: SigningConfigurationProperties,
}

/// What a [`SigningConfiguration`] holds.
pub struct SigningConfigurationView {
    pub id: Id,
    pub resource_id: String,
    pub resource_type: String,
    pub properties: SigningConfigurationProperties,
}

impl View for SigningConfiguration {
    type V = SigningConfigurationView;

    open(crate) spec fn view(&self) -> SigningConfigurationView {
        SigningConfigurationView {
            id: self.id,
            resource_id: self.resource_id,
            resource_type: self.resource_type,
            properties: self.properties,
        }
    }
}

impl SigningConfiguration {
    pub fn get_id(&self) -> (r: &Id)
        ensures
            *r == self@.id,
    {
        &self.id
    }

    pub fn get_resource_id(&self) -> (r: &str)
        ensures
            r@ == self@.resource_id@,
    {
        self.resource_id.as_str()
    }

    pub fn get_type(&self) -> (r: &str)
        ensures
            r@ == self@.resource_type@,
    {
        self.resource_type.as_str()
    }
}

/// Part of the SigningConfigurationProperties configuration.
pub struct SigningConfigurationProperties {
    pub(crate) rules: Vec<Rule>,
}

/// What a [`SigningConfigurationProperties`] holds.
pub struct SigningConfigurationPropertiesView {
    pub rules: Vec<Rule>,
}

impl View for SigningConfigurationProperties {
    type V = SigningConfigurationPropertiesView;

    open(crate) spec fn view(&self) -> SigningConfigurationPropertiesView {
        SigningConfigurationPropertiesView {
            rules: self.rules,
        }
    }
}

/// Part of the Rule configuration.
pub struct Rule {
    pub(crate) signing_profile_arn: String,
    pub(crate) repository_filters: Option<Vec<RepositoryFilter>>,
}

/// What a [`Rule`] holds.
pub struct RuleView {
    pub signing_profile_arn: String,
    pub repository_filters: Option<Vec<RepositoryFilter>>,
}

impl View for Rule {
    type V = RuleView;

    open(crate) spec fn view(&self) -> RuleView {
        RuleView {
            signing_profile_arn: self.signing_profile_arn,
            repository_filters: self.repository_filters,
        }
    }
}

/// Part of the RepositoryFilter configuration.
pub struct RepositoryFilter {
    pub(crate) filter: String,
    pub(crate) filter_type: String,
}

/// What a [`RepositoryFilter`] holds.
pub struct RepositoryFilterView {
    pub filter: String,
    pub filter_type: String,
}

impl View for RepositoryFilter {
    type V = RepositoryFilterView;

    open(crate) spec fn view(&self) -> RepositoryFilterView {
        RepositoryFilterView {
            filter: self.filter,
            filter_type: self.filter_type,
        }
    }
}

} // verus!
