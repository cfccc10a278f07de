use vstd::prelude::*;
use vstd::string::StringExecFns;
use graphql_parser::schema;
use graphql_parser::schema::{Definition, InputObjectType, ObjectType};
use crate::ast::{DeclarationView, Kind, Name};
use crate::codegen::emitter_error::EmitterError;
use crate::store::Store;
use crate::text::{chars_of, replace_char, replaced, string_of};

verus! {

/// What a `TypeDefinition` holds.
pub enum TypeDefinitionView {
    Object { name: Seq<char> },
    InputObject { name: Seq<char> },
}

/// A type definition of a GraphQL schema: an object type or an input
/// object type. It has no fields, no directives, no description, and it
/// implements no interface.
#[derive(Debug, PartialEq, Eq)]
pub enum TypeDefinition {
    Object { name: String },
    InputObject { name: String },
}

impl View for TypeDefinition {
    type V = TypeDefinitionView;

    open spec fn view(&self) -> TypeDefinitionView {
        match self {
            TypeDefinition::Object { name } => TypeDefinitionView::Object { name: name@ },
            TypeDefinition::InputObject { name } => TypeDefinitionView::InputObject { name: name@ },
        }
    }
}

impl DeepView for TypeDefinition {
    type V = TypeDefinitionView;

    open spec fn deep_view(&self) -> TypeDefinitionView {
        self@
    }
}

/// The definitions of a GraphQL schema, in order.
#[derive(Debug, PartialEq, Eq)]
pub struct Document {
    pub definitions: Vec<TypeDefinition>,
}

/// A definition as plain values: whether it is an input object type, and
/// its name.
pub open spec fn plain_definition(definition: TypeDefinitionView) -> (bool, Seq<char>) {
    match definition {
        TypeDefinitionView::Object { name } => (false, name),
        TypeDefinitionView::InputObject { name } => (true, name),
    }
}

/// The definitions as plain values.
pub open spec fn plain_definitions(definitions: Seq<TypeDefinitionView>) -> Seq<(bool, Seq<char>)> {
    definitions.map_values(|definition: TypeDefinitionView| plain_definition(definition))
}

/// The text of the schema document that holds the definitions, as
/// graphql_parser writes it.
pub uninterp spec fn schema_text(definitions: Seq<(bool, Seq<char>)>) -> Seq<char>;

/// The `Display` of `graphql_parser::schema::Document` writes a document as
/// GraphQL schema text. The document holds one type definition for each
/// definition given, an object type or an input object type of that name,
/// built by `ObjectType::new` and `InputObjectType::new`. The text depends
/// on the definitions alone.
#[verifier::external_body]
fn write_schema(definitions: &Vec<TypeDefinition>) -> (r: String)
    ensures
        r@ == schema_text(plain_definitions(definitions.deep_view())),
{
    let definitions = definitions.iter().map(
        |definition|
            Definition::TypeDefinition(
                match definition {
                    TypeDefinition::Object { name } => schema::TypeDefinition::Object(
                        ObjectType::new(name.clone()),
                    ),
                    TypeDefinition::InputObject { name } => schema::TypeDefinition::InputObject(
                        InputObjectType::new(name.clone()),
                    ),
                },
            ),
    ).collect();
    format!("{}", schema::Document::<'static, String> { definitions })
}

impl Document {
    /// The schema as GraphQL source text.
    pub fn to_string(&self) -> (r: String)
        ensures
            r@ == schema_text(plain_definitions(self@)),
    {
        write_schema(&self.definitions)
    }
}

impl View for Document {
    type V = Seq<TypeDefinitionView>;

    open spec fn view(&self) -> Seq<TypeDefinitionView> {
        self.definitions.deep_view()
    }
}

/// The name of the object type of the kind named `uri`: each `:` becomes
/// `_` and each `/` becomes `__`.
pub open spec fn object_name(uri: Seq<char>) -> Seq<char> {
    replaced(replaced(uri, ':', seq!['_']), '/', seq!['_', '_'])
}

/// The name of the input object type of the kind named `uri`.
pub open spec fn input_name(uri: Seq<char>) -> Seq<char> {
    object_name(uri) + "__Input"@
}

/// The two definitions of the kind named `uri`: its object type, then its
/// input object type.
pub open spec fn definitions_of(uri: Seq<char>) -> Seq<TypeDefinitionView> {
    seq![
        TypeDefinitionView::Object { name: object_name(uri) },
        TypeDefinitionView::InputObject { name: input_name(uri) },
    ]
}

/// The definitions of the kinds, in order.
pub open spec fn document_of(kinds: Seq<DeclarationView>) -> Seq<TypeDefinitionView>
    decreases kinds.len(),
{
    if kinds.len() == 0 {
        Seq::empty()
    } else {
        document_of(kinds.drop_last()) + definitions_of(kinds.last().name.uri)
    }
}

/// The emitter of a GraphQL schema.
#[derive(Default)]
pub struct GraphQLEmitter {}

impl GraphQLEmitter {
    pub fn new() -> (r: GraphQLEmitter) {
        GraphQLEmitter {  }
    }

    /// Two definitions for each kind of the store.
    pub fn translate(&self, store: &Store) -> (r: Result<Document, EmitterError>)
        ensures
            r matches Ok(document) && document@ == document_of(store@.kinds),
    {
        let mut definitions: Vec<TypeDefinition> = Vec::new();
        let kinds = store.kinds();
        let mut i: usize = 0;
        while i < kinds.len()
            invariant
                i <= kinds.len(),
                definitions.deep_view() == document_of(kinds.deep_view().take(i as int)),
            decreases kinds.len() - i,
        {
            let ghost before = definitions.deep_view();
            proof {
                let part = kinds.deep_view().take(i + 1);
                assert(part.drop_last() =~= kinds.deep_view().take(i as int));
            }
            let mut types = match self.kind_to_types(kinds[i]) {
                Ok(types) => types,
                Err(e) => {
                    return Err(e);
                },
            };
            let input = types.pop().unwrap();
            let object = types.pop().unwrap();
            definitions.push(object);
            definitions.push(input);
            proof {
                assert(definitions.deep_view() =~= before + definitions_of(
                    kinds@[i as int]@.name.uri,
                ));
            }
            i += 1;
        }
        proof {
            assert(kinds.deep_view().take(i as int) =~= kinds.deep_view());
        }
        Ok(Document { definitions })
    }

    fn name_to_type_name(&self, name: &Name) -> (r: String)
        ensures
            r@ == object_name(name@.uri),
    {
        let uri = chars_of(name.to_string().as_str());
        let underscore = ['_'];
        let double = ['_', '_'];
        let step = replace_char(uri.as_slice(), ':', underscore.as_slice());
        let text = replace_char(step.as_slice(), '/', double.as_slice());
        proof {
            assert(underscore@ =~= seq!['_']);
        }
        string_of(text.as_slice())
    }

    fn name_to_input_name(&self, name: &Name) -> (r: String)
        ensures
            r@ == input_name(name@.uri),
    {
        self.name_to_type_name(name).concat("__Input")
    }

    fn kind_to_types(&self, kind: &Kind) -> (r: Result<Vec<TypeDefinition>, EmitterError>)
        ensures
            r matches Ok(types) && types.len() == 2 && types.deep_view() == definitions_of(
                kind@.name.uri,
            ),
    {
        let mut types: Vec<TypeDefinition> = Vec::new();
        types.push(TypeDefinition::Object { name: self.name_to_type_name(&kind.name) });
        types.push(TypeDefinition::InputObject { name: self.name_to_input_name(&kind.name) });
        Ok(types)
    }
}

} // verus!
