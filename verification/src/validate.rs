//! Checking requests and schemas before a helper is started.
use vstd::prelude::*;

use crate::double::{greater, is_finite, scaled_value, Double};
use crate::error::{Error, ErrorView};
use crate::text::{blank, is_blank, join3};
use crate::types::{
    properties_view_is_elementwise, property_view, MessageView, PropertyView, Request, RequestView,
    Role, Schema, SchemaProperty, SchemaType, SchemaView,
};

verus! {

/// Whether bounds on an element count leave no count at all.
pub open spec fn count_inverted(count: Option<(Option<usize>, Option<usize>)>) -> bool {
    count matches Some((Some(min), Some(max))) && min > max
}

/// Whether bounds on a number have the lower bound above the upper one.
pub open spec fn range_inverted(range: Option<(Double, Double)>) -> bool {
    range matches Some((min, max)) && greater(min.bits, max.bits)
}

/// Whether a property can be sent: it and every property nested in it has a name, objects have
/// fields, arrays have an element schema, and no bounds are inverted.
pub open spec fn well_formed_property(p: PropertyView) -> bool
    decreases p,
{
    &&& !blank(p.name)
    &&& match p.property_type {
        SchemaType::Object => {
            &&& p.properties matches Some(nested)
            &&& nested.len() > 0
            &&& forall|i: int| 0 <= i < nested.len() ==> well_formed_property(#[trigger] nested[i])
        },
        SchemaType::Array => {
            &&& p.items matches Some(items)
            &&& well_formed_property(*items)
            &&& !count_inverted(p.count)
        },
        SchemaType::Integer => !range_inverted(p.range),
        SchemaType::Number => !range_inverted(p.range),
        SchemaType::String => true,
        SchemaType::Boolean => true,
    }
}

/// Whether a schema can be sent.
pub open spec fn well_formed_schema(s: SchemaView) -> bool {
    &&& !blank(s.name)
    &&& s.properties.len() > 0
    &&& forall|i: int|
        0 <= i < s.properties.len() ==> well_formed_property(#[trigger] s.properties[i])
}

/// What is wrong with a property, if anything is.
pub open spec fn property_fault(p: PropertyView) -> Option<Seq<char>>
    decreases p,
{
    if blank(p.name) {
        Some("a schema property has an empty name"@)
    } else {
        match p.property_type {
            SchemaType::Object => match p.properties {
                Some(nested) => if nested.len() > 0 {
                    first_fault(nested)
                } else {
                    Some("object property '"@ + p.name + "' has no nested properties"@)
                },
                None => Some("object property '"@ + p.name + "' has no nested properties"@),
            },
            SchemaType::Array => match p.items {
                Some(items) => match property_fault(*items) {
                    Some(fault) => Some(fault),
                    None => if count_inverted(p.count) {
                        Some("array property '"@ + p.name + "' has min count > max count"@)
                    } else {
                        None
                    },
                },
                None => Some("array property '"@ + p.name + "' is missing `items`"@),
            },
            SchemaType::Integer => if range_inverted(p.range) {
                Some("property '"@ + p.name + "' has an inverted range"@)
            } else {
                None
            },
            SchemaType::Number => if range_inverted(p.range) {
                Some("property '"@ + p.name + "' has an inverted range"@)
            } else {
                None
            },
            SchemaType::String => None,
            SchemaType::Boolean => None,
        }
    }
}

/// What is wrong with the first faulty property of a list, if one is faulty.
pub open spec fn first_fault(ps: Seq<PropertyView>) -> Option<Seq<char>>
    decreases ps,
{
    if ps.len() == 0 {
        None
    } else {
        match first_fault(ps.drop_last()) {
            Some(fault) => Some(fault),
            None => property_fault(ps.last()),
        }
    }
}

/// What is wrong with a schema, if anything is.
pub open spec fn schema_fault(s: SchemaView) -> Option<Seq<char>> {
    if blank(s.name) {
        Some("schema name must not be empty"@)
    } else if s.properties.len() == 0 {
        Some("schema '"@ + s.name + "' declares no properties"@)
    } else {
        first_fault(s.properties)
    }
}

/// Whether somebody other than the system speaks in a conversation.
pub open spec fn has_turn(messages: Seq<MessageView>) -> bool {
    exists|i: int| 0 <= i < messages.len() && (#[trigger] messages[i]).role != Role::System
}

/// Whether a conversation holds no text.
pub open spec fn all_blank(messages: Seq<MessageView>) -> bool {
    forall|i: int| 0 <= i < messages.len() ==> blank((#[trigger] messages[i]).content)
}

/// Whether a temperature can be sent: a finite number that is not negative.
pub open spec fn sound_temperature(t: Double) -> bool {
    is_finite(t.bits) && scaled_value(t.bits) >= 0
}

/// Why a request is refused, if it is.
pub open spec fn request_fault(r: RequestView) -> Option<ErrorView> {
    if !has_turn(r.messages) {
        Some(ErrorView::BadRequest("request needs at least one user or assistant message"@))
    } else if all_blank(r.messages) {
        Some(ErrorView::BadRequest("all messages are empty"@))
    } else if r.temperature matches Some(t) && !sound_temperature(t) {
        Some(ErrorView::BadRequest("temperature must be a finite, non-negative number"@))
    } else {
        match r.schema {
            Some(schema) => match schema_fault(schema) {
                Some(why) => Some(ErrorView::InvalidSchema(why)),
                None => None,
            },
            None => None,
        }
    }
}

/// The fault reported of a list is that of its earliest faulty property.
pub proof fn first_fault_is_the_earliest(ps: Seq<PropertyView>)
    ensures
        first_fault(ps) is None <==> forall|i: int|
            0 <= i < ps.len() ==> property_fault(#[trigger] ps[i]) is None,
        first_fault(ps) matches Some(fault) ==> exists|at: int|
            {
                &&& 0 <= at < ps.len()
                &&& property_fault(#[trigger] ps[at]) == Some(fault)
                &&& forall|i: int| 0 <= i < at ==> property_fault(#[trigger] ps[i]) is None
            },
    decreases ps.len(),
{
    if ps.len() > 0 {
        let front = ps.drop_last();
        first_fault_is_the_earliest(front);
        assert forall|i: int| 0 <= i < front.len() implies #[trigger] ps[i] == front[i] by {}
        if first_fault(front) is Some {
            let fault = first_fault(front)->0;
            let at = choose|at: int|
                {
                    &&& 0 <= at < front.len()
                    &&& property_fault(#[trigger] front[at]) == Some(fault)
                    &&& forall|i: int| 0 <= i < at ==> property_fault(#[trigger] front[i]) is None
                };
            assert(ps[at] == front[at]);
            assert forall|i: int| 0 <= i < at implies property_fault(#[trigger] ps[i]) is None by {
                assert(front[i] == ps[i]);
            }
        } else {
            assert forall|i: int| 0 <= i < front.len() implies property_fault(
                #[trigger] ps[i],
            ) is None by {
                assert(property_fault(front[i]) is None);
            }
            assert(ps[ps.len() - 1] == ps.last());
        }
    }
}

/// A property has no fault exactly where it is well formed at every depth.
pub proof fn property_without_fault_is_well_formed(p: PropertyView)
    ensures
        property_fault(p) is None <==> well_formed_property(p),
    decreases p,
{
    match p.property_type {
        SchemaType::Object => {
            if let Some(nested) = p.properties {
                first_fault_is_the_earliest(nested);
                assert forall|i: int| 0 <= i < nested.len() implies (property_fault(
                    #[trigger] nested[i],
                ) is None <==> well_formed_property(nested[i])) by {
                    property_without_fault_is_well_formed(nested[i]);
                }
            }
        },
        SchemaType::Array => {
            if let Some(items) = p.items {
                property_without_fault_is_well_formed(*items);
            }
        },
        _ => {},
    }
}

/// A schema passes exactly where it is well formed at every depth.
pub proof fn schema_without_fault_is_well_formed(s: SchemaView)
    ensures
        schema_fault(s) is None <==> well_formed_schema(s),
{
    first_fault_is_the_earliest(s.properties);
    assert forall|i: int| 0 <= i < s.properties.len() implies (property_fault(
        #[trigger] s.properties[i],
    ) is None <==> well_formed_property(s.properties[i])) by {
        property_without_fault_is_well_formed(s.properties[i]);
    }
}

/// A request passes exactly where somebody other than the system speaks, some message has text,
/// the temperature is finite and not negative, and the schema is well formed.
pub proof fn request_passes_exactly_where_sound(r: RequestView)
    ensures
        request_fault(r) is None <==> {
            &&& has_turn(r.messages)
            &&& !all_blank(r.messages)
            &&& r.temperature matches Some(t) ==> sound_temperature(t)
            &&& r.schema matches Some(schema) ==> well_formed_schema(schema)
        },
{
    if let Some(schema) = r.schema {
        schema_without_fault_is_well_formed(schema);
    }
}

/// A refusal blames either the request or its schema, and waiting mends neither.
pub proof fn refusals_are_not_retryable(r: RequestView)
    ensures
        request_fault(r) matches Some(error) ==> (error is BadRequest || error is InvalidSchema)
            && !crate::error::retryable(error),
{
}

/// The outcome of a check that gives a reason where it fails.
pub open spec fn reports(r: Result<(), String>, fault: Option<Seq<char>>) -> bool {
    match r {
        Ok(_) => fault is None,
        Err(why) => fault == Some(why@),
    }
}

impl SchemaProperty {
    /// Validates the property tree, returning a human-readable reason on failure.
    pub fn validate(&self) -> (r: Result<(), String>)
        ensures
            reports(r, property_fault(self@)),
        decreases self,
    {
        if is_blank(self.name.as_str()) {
            return Err("a schema property has an empty name".to_string());
        }
        match self.property_type {
            SchemaType::Object => {
                if let Some(nested) = &self.properties {
                    proof {
                        properties_view_is_elementwise(nested@);
                    }
                    if nested.len() > 0 {
                        let ghost views = self@.properties->0;
                        let mut next: usize = 0;
                        proof {
                            assert(views.take(0) =~= Seq::empty());
                        }
                        while next < nested.len()
                            invariant
                                self.properties == Some(*nested),
                                next <= nested@.len(),
                                views.len() == nested@.len(),
                                views == self@.properties->0,
                                forall|i: int|
                                    0 <= i < nested@.len() ==> #[trigger] views[i]
                                        == property_view(nested@[i]),
                                first_fault(views.take(next as int)) is None,
                                property_fault(self@) == first_fault(views),
                            decreases nested@.len() - next,
                        {
                            let ghost upto = views.take(next + 1);
                            proof {
                                assert(upto.drop_last() =~= views.take(next as int));
                                assert(upto.last() == views[next as int]);
                                assert(decreases_to!(self => self.properties->0@[next as int]));
                            }
                            if let Err(why) = nested[next].validate() {
                                proof {
                                    first_fault_is_found_early(views, next + 1);
                                }
                                return Err(why);
                            }
                            next = next + 1;
                        }
                        assert(views.take(next as int) =~= views);
                        Ok(())
                    } else {
                        Err(
                            join3(
                                "object property '",
                                self.name.as_str(),
                                "' has no nested properties",
                            ),
                        )
                    }
                } else {
                    Err(
                        join3("object property '", self.name.as_str(), "' has no nested properties"),
                    )
                }
            },
            SchemaType::Array => {
                match &self.items {
                    Some(items) => {
                        (**items).validate()?;
                        if let Some(bounds) = self.count {
                            if let (Some(min), Some(max)) = (bounds[0], bounds[1]) {
                                if min > max {
                                    return Err(
                                        join3(
                                            "array property '",
                                            self.name.as_str(),
                                            "' has min count > max count",
                                        ),
                                    );
                                }
                            }
                        }
                        Ok(())
                    },
                    None => Err(
                        join3("array property '", self.name.as_str(), "' is missing `items`"),
                    ),
                }
            },
            SchemaType::Integer | SchemaType::Number => {
                if let Some(bounds) = self.range {
                    if bounds[0].exceeds(bounds[1]) {
                        return Err(
                            join3("property '", self.name.as_str(), "' has an inverted range"),
                        );
                    }
                }
                Ok(())
            },
            SchemaType::String | SchemaType::Boolean => Ok(()),
        }
    }
}

impl Schema {
    /// Validates the schema locally, before spawning a process.
    pub fn validate(&self) -> (r: Result<(), String>)
        ensures
            reports(r, schema_fault(self@)),
    {
        proof {
            properties_view_is_elementwise(self.properties@);
        }
        if is_blank(self.name.as_str()) {
            return Err("schema name must not be empty".to_string());
        }
        if self.properties.len() == 0 {
            return Err(join3("schema '", self.name.as_str(), "' declares no properties"));
        }
        let ghost views = self@.properties;
        let mut next: usize = 0;
        assert(views.take(0) =~= Seq::empty());
        while next < self.properties.len()
            invariant
                next <= self.properties@.len(),
                views.len() == self.properties@.len(),
                forall|i: int|
                    0 <= i < self.properties@.len() ==> #[trigger] views[i] == property_view(
                        self.properties@[i],
                    ),
                first_fault(views.take(next as int)) is None,
                schema_fault(self@) == first_fault(views),
            decreases self.properties@.len() - next,
        {
            proof {
                assert(views.take(next + 1).drop_last() =~= views.take(next as int));
            }
            if let Err(why) = self.properties[next].validate() {
                proof {
                    first_fault_is_found_early(views, next + 1);
                }
                return Err(why);
            }
            next = next + 1;
        }
        assert(views.take(next as int) =~= views);
        Ok(())
    }
}

/// The outcome of a check that gives an error where it fails.
pub open spec fn refuses(r: Result<(), Error>, fault: Option<ErrorView>) -> bool {
    match r {
        Ok(_) => fault is None,
        Err(error) => fault == Some(error@),
    }
}

impl Request {
    /// Whether a user or assistant turn is there.
    fn has_turn(&self) -> (r: bool)
        ensures
            r == has_turn(self@.messages),
    {
        let mut next: usize = 0;
        while next < self.messages.len()
            invariant
                next <= self.messages@.len(),
                forall|i: int|
                    0 <= i < next ==> (#[trigger] self@.messages[i]).role == Role::System,
            decreases self.messages@.len() - next,
        {
            if self.messages[next].role != Role::System {
                assert(self@.messages[next as int].role != Role::System);
                return true;
            }
            next = next + 1;
        }
        false
    }

    /// Whether no message has text.
    fn all_blank(&self) -> (r: bool)
        ensures
            r == all_blank(self@.messages),
    {
        let mut next: usize = 0;
        while next < self.messages.len()
            invariant
                next <= self.messages@.len(),
                forall|i: int| 0 <= i < next ==> blank((#[trigger] self@.messages[i]).content),
            decreases self.messages@.len() - next,
        {
            if !is_blank(self.messages[next].content.as_str()) {
                assert(!blank(self@.messages[next as int].content));
                return false;
            }
            next = next + 1;
        }
        true
    }

    /// Validates the request locally, before spawning a process.
    pub fn validate(&self) -> (r: Result<(), Error>)
        ensures
            refuses(r, request_fault(self@)),
    {
        if !self.has_turn() {
            return Err(
                Error::BadRequest(
                    "request needs at least one user or assistant message".to_string(),
                ),
            );
        }
        if self.all_blank() {
            return Err(Error::BadRequest("all messages are empty".to_string()));
        }
        if let Some(temperature) = self.temperature {
            if !temperature.is_finite() || temperature.is_negative() {
                return Err(
                    Error::BadRequest(
                        "temperature must be a finite, non-negative number".to_string(),
                    ),
                );
            }
        }
        if let Some(schema) = &self.schema {
            if let Err(why) = schema.validate() {
                return Err(Error::InvalidSchema(why));
            }
        }
        Ok(())
    }
}

/// A fault among the first properties of a list is the fault of the list.
proof fn first_fault_is_found_early(ps: Seq<PropertyView>, upto: int)
    requires
        0 <= upto <= ps.len(),
        first_fault(ps.take(upto)) is Some,
    ensures
        first_fault(ps) == first_fault(ps.take(upto)),
    decreases ps.len() - upto,
{
    if upto < ps.len() {
        assert(ps.take(upto + 1).drop_last() =~= ps.take(upto));
        first_fault_is_found_early(ps, upto + 1);
    } else {
        assert(ps.take(upto) =~= ps);
    }
}

} // verus!
