//! The fillable HTML page of a form.
use vstd::prelude::*;
use vstd::string::*;
use handlebars::Handlebars;
use serde_json::Value;
use crate::api::{field_type_name, submit_action, submit_path_text, type_name_text};
use crate::ids::assigned_id;
use crate::models::{FieldOption, FormField, FormSchema};

verus! {

/// The page layout: each field becomes the control its type asks for, in
/// stored order, and the form posts to `action`.
pub const FORM_TEMPLATE: &'static str = r#"
            <!DOCTYPE html>
            <html lang="en">
            <head>
                <meta charset="UTF-8">
                <meta name="viewport" content="width=device-width, initial-scale=1.0">
                <title>{{name}}</title>
                <style>
                    body {
                        font-family: Arial, sans-serif;
                        max-width: 800px;
                        margin: 0 auto;
                        padding: 20px;
                    }
                    .form-group {
                        margin-bottom: 20px;
                    }
                    label {
                        display: block;
                        margin-bottom: 5px;
                        font-weight: bold;
                    }
                    input[type="text"],
                    input[type="number"],
                    input[type="email"],
                    input[type="date"],
                    textarea,
                    select {
                        width: 100%;
                        padding: 10px;
                        border: 1px solid #ddd;
                        border-radius: 4px;
                    }
                    button {
                        background-color: #4CAF50;
                        color: white;
                        padding: 10px 15px;
                        border: none;
                        border-radius: 4px;
                        cursor: pointer;
                    }
                    .checkbox-group label, .radio-group label {
                        font-weight: normal;
                        display: flex;
                        align-items: center;
                        margin-bottom: 5px;
                    }
                    .checkbox-group input, .radio-group input {
                        margin-right: 10px;
                    }
                </style>
            </head>
            <body>
                <h1>{{name}}</h1>
                {{#if description}}
                <p>{{description}}</p>
                {{/if}}
                
                <form action="{{action}}" method="post">
                    {{#each fields}}
                    <div class="form-group">
                        <label for="{{id}}">{{label}}{{#if required}} *{{/if}}</label>
                        
                        {{#if (eq field_type "Text")}}
                        <input type="text" id="{{id}}" name="{{id}}" {{#if required}}required{{/if}} {{#if placeholder}}placeholder="{{placeholder}}"{{/if}}>
                        {{/if}}
                        
                        {{#if (eq field_type "Number")}}
                        <input type="number" id="{{id}}" name="{{id}}" {{#if required}}required{{/if}} {{#if placeholder}}placeholder="{{placeholder}}"{{/if}}>
                        {{/if}}
                        
                        {{#if (eq field_type "Email")}}
                        <input type="email" id="{{id}}" name="{{id}}" {{#if required}}required{{/if}} {{#if placeholder}}placeholder="{{placeholder}}"{{/if}}>
                        {{/if}}
                        
                        {{#if (eq field_type "Date")}}
                        <input type="date" id="{{id}}" name="{{id}}" {{#if required}}required{{/if}}>
                        {{/if}}
                        
                        {{#if (eq field_type "Textarea")}}
                        <textarea id="{{id}}" name="{{id}}" {{#if required}}required{{/if}} {{#if placeholder}}placeholder="{{placeholder}}"{{/if}}></textarea>
                        {{/if}}
                        
                        {{#if (eq field_type "Select")}}
                        <select id="{{id}}" name="{{id}}" {{#if required}}required{{/if}}>
                            <option value="">-- Select --</option>
                            {{#each options}}
                            <option value="{{value}}">{{label}}</option>
                            {{/each}}
                        </select>
                        {{/if}}
                        
                        {{#if (eq field_type "Checkbox")}}
                        <div class="checkbox-group">
                            {{#each options}}
                            <label>
                                <input type="checkbox" name="{{../id}}" value="{{value}}"> {{label}}
                            </label>
                            {{/each}}
                        </div>
                        {{/if}}
                        
                        {{#if (eq field_type "Radio")}}
                        <div class="radio-group">
                            {{#each options}}
                            <label>
                                <input type="radio" name="{{../id}}" value="{{value}}" {{#if ../required}}required{{/if}}> {{label}}
                            </label>
                            {{/each}}
                        </div>
                        {{/if}}
                    </div>
                    {{/each}}
                    
                    <button type="submit">Submit</button>
                </form>
            </body>
            </html>
            "#;

/// One choice of a select, checkbox or radio group on the page.
pub struct PageOption {
    pub value: String,
    pub label: String,
}

/// One field as the page template reads it.
pub struct PageField {
    pub id: String,
    pub label: String,
    pub kind: String,
    pub required: bool,
    pub placeholder: Option<String>,
    pub options: Vec<PageOption>,
}

/// Everything the page template reads.
pub struct PageContext {
    pub action: String,
    pub name: String,
    /// Empty when the form has no description; the page then shows none.
    pub description: String,
    pub fields: Vec<PageField>,
}

pub struct PageFieldView {
    pub id: Seq<char>,
    pub label: Seq<char>,
    pub kind: Seq<char>,
    pub required: bool,
    pub placeholder: Option<Seq<char>>,
    pub options: Seq<(Seq<char>, Seq<char>)>,
}

pub struct PageContextView {
    pub action: Seq<char>,
    pub name: Seq<char>,
    pub description: Seq<char>,
    pub fields: Seq<PageFieldView>,
}

pub open spec fn text_option(o: Option<String>) -> Option<Seq<char>> {
    match o {
        Some(s) => Some(s@),
        None => None,
    }
}

impl View for PageField {
    type V = PageFieldView;

    open spec fn view(&self) -> PageFieldView {
        PageFieldView {
            id: self.id@,
            label: self.label@,
            kind: self.kind@,
            required: self.required,
            placeholder: text_option(self.placeholder),
            options: self.options@.map_values(|o: PageOption| (o.value@, o.label@)),
        }
    }
}

impl View for PageContext {
    type V = PageContextView;

    open spec fn view(&self) -> PageContextView {
        PageContextView {
            action: self.action@,
            name: self.name@,
            description: self.description@,
            fields: self.fields@.map_values(|f: PageField| f@),
        }
    }
}

/// The page that handlebars renders from `template` and `ctx`, if it
/// renders.
pub uninterp spec fn rendered_page(template: Seq<char>, ctx: PageContextView) -> Option<Seq<char>>;

/// The text served when the page does not render.
pub open spec fn fallback_text() -> Seq<char> {
    "Failed to render form template"@
}

/// The page served for `template` and `ctx`: the rendered page, else the
/// fallback text.
pub open spec fn page_text(template: Seq<char>, ctx: PageContextView) -> Seq<char> {
    match rendered_page(template, ctx) {
        Some(p) => p,
        None => fallback_text(),
    }
}

/// The choices of a field as the page shows them; none when it has none.
pub open spec fn options_view_of(options: Option<Vec<FieldOption>>) -> Seq<(Seq<char>, Seq<char>)> {
    match options {
        Some(os) => os@.map_values(|o: FieldOption| (o.value@, o.label@)),
        None => Seq::empty(),
    }
}

/// What the page shows of field `f`.
pub open spec fn field_view_of(f: FormField) -> PageFieldView {
    PageFieldView {
        id: f.id@,
        label: f.label@,
        kind: type_name_text(f.field_type),
        required: f.required,
        placeholder: text_option(f.placeholder),
        options: options_view_of(f.options),
    }
}

/// What the page of `schema` shows; `drawn` stands in for a missing
/// identifier in the submission target.
pub open spec fn page_context_of(schema: FormSchema, drawn: u128) -> PageContextView {
    PageContextView {
        action: submit_path_text(assigned_id(schema.id, drawn)),
        name: schema.name@,
        description: match schema.description {
            Some(d) => d@,
            None => Seq::empty(),
        },
        fields: schema.fields@.map_values(|f: FormField| field_view_of(f)),
    }
}

/// Relies on handlebars::Handlebars::render_template: it compiles and
/// renders `template` over the JSON form of `ctx` (built with serde_json's
/// conversions into `Value`), and returns an error rather than panicking when
/// either step fails.
#[verifier::external_body]
fn render_template(template: &str, ctx: &PageContext) -> (r: Option<String>)
    ensures
        match r {
            Some(p) => rendered_page(template@, ctx@) == Some(p@),
            None => rendered_page(template@, ctx@) is None,
        },
{
    let mut data = Value::from_iter([("action", &*ctx.action), ("name", &*ctx.name), ("description", &*ctx.description)]);
    data["fields"] = ctx.fields.iter().map(|f| {
        let mut v = Value::from_iter([("id", &*f.id), ("label", &*f.label), ("field_type", &*f.kind)]);
        v["required"] = f.required.into();
        v["placeholder"] = f.placeholder.clone().into();
        v["options"] = f.options.iter().map(|o| Value::from_iter([("value", &*o.value), ("label", &*o.label)])).collect();
        v
    }).collect();
    Handlebars::new().render_template(template, &data).ok()
}

/// The page to serve for a render outcome: the page, else the fallback.
pub fn page_or_fallback(rendered: Option<String>) -> (r: String)
    ensures
        match rendered {
            Some(p) => r@ == p@,
            None => r@ == fallback_text(),
        },
{
    match rendered {
        Some(p) => p,
        None => String::from_str("Failed to render form template"),
    }
}

fn copy_text(o: &Option<String>) -> (r: Option<String>)
    ensures
        text_option(r) == text_option(*o),
{
    match o {
        Some(s) => Some(s.clone()),
        None => None,
    }
}

/// The page form of field `f`.
pub fn page_field(f: &FormField) -> (r: PageField)
    ensures
        r@ == field_view_of(*f),
{
    let mut options: Vec<PageOption> = Vec::new();
    match &f.options {
        Some(os) => {
            let mut i: usize = 0;
            while i < os.len()
                invariant
                    0 <= i <= os@.len(),
                    options@.len() == i,
                    forall|j: int| 0 <= j < i ==> (#[trigger] options@[j]).value@ == os@[j].value@
                        && options@[j].label@ == os@[j].label@,
                decreases os.len() - i,
            {
                options.push(PageOption { value: os[i].value.clone(), label: os[i].label.clone() });
                i += 1;
            }
            assert(options@.map_values(|o: PageOption| (o.value@, o.label@)) =~= os@.map_values(
                |o: FieldOption| (o.value@, o.label@),
            ));
        },
        None => {
            assert(options@.map_values(|o: PageOption| (o.value@, o.label@)) =~= Seq::<(Seq<char>, Seq<char>)>::empty());
        },
    }
    PageField {
        id: f.id.clone(),
        label: f.label.clone(),
        kind: field_type_name(f.field_type),
        required: f.required,
        placeholder: copy_text(&f.placeholder),
        options,
    }
}

/// Everything the page of `schema` shows; `drawn` is a fresh random
/// identifier, used in the submission target only when the schema has none.
pub fn page_context(schema: &FormSchema, drawn: u128) -> (r: PageContext)
    ensures
        r@ == page_context_of(*schema, drawn),
{
    let mut fields: Vec<PageField> = Vec::new();
    let mut i: usize = 0;
    while i < schema.fields.len()
        invariant
            0 <= i <= schema.fields@.len(),
            fields@.len() == i,
            forall|j: int| 0 <= j < i ==> (#[trigger] fields@[j])@ == field_view_of(schema.fields@[j]),
        decreases schema.fields.len() - i,
    {
        fields.push(page_field(&schema.fields[i]));
        i += 1;
    }
    assert(fields@.map_values(|f: PageField| f@) =~= schema.fields@.map_values(|f: FormField| field_view_of(f)));
    PageContext {
        action: submit_action(schema.id, drawn),
        name: schema.name.clone(),
        description: match &schema.description {
            Some(d) => d.clone(),
            None => String::new(),
        },
        fields,
    }
}

/// The fillable page of `schema`. A page that does not render gives the
/// fallback text instead; nothing panics.
pub fn generate_form_html(schema: &FormSchema, drawn: u128) -> (r: String)
    ensures
        r@ == page_text(FORM_TEMPLATE@, page_context_of(*schema, drawn)),
{
    let ctx = page_context(schema, drawn);
    page_or_fallback(render_template(FORM_TEMPLATE, &ctx))
}

} // verus!
