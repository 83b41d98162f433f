//! The pattern catalog.
//!
//! A fixed mapping from a numeric identifier to a message pattern and a
//! friendlier template, built once at startup and read-only thereafter.
//! Some entries pair a pattern with an identical template on purpose: they
//! exist to supply a curated message even when no rewording is needed.

use vstd::prelude::*;

verus! {

/// One catalog entry: the shape of the original message and the friendlier
/// wording, both with `{n}` placeholders.
pub struct ErrorInfo {
    /// The shape of the original message.
    pub pattern: String,
    /// The replacement wording, sharing the pattern's placeholder indices.
    pub message: String,
}

/// What one stored entry says: identifier, pattern, template.
pub open spec fn entry_view(e: (u32, ErrorInfo)) -> (u32, Seq<char>, Seq<char>) {
    (e.0, e.1.pattern@, e.1.message@)
}

pub open spec fn entries_vec_view(s: Seq<(u32, ErrorInfo)>) -> Seq<(u32, Seq<char>, Seq<char>)> {
    s.map_values(|e: (u32, ErrorInfo)| entry_view(e))
}

/// The identifier-to-entry registry.
pub struct Catalog {
    entries: Vec<(u32, ErrorInfo)>,
}

/// The first entry from `i` on whose identifier is `code`.
pub open spec fn lookup_from(
    es: Seq<(u32, Seq<char>, Seq<char>)>,
    i: int,
    code: u32,
) -> Option<(Seq<char>, Seq<char>)>
    decreases es.len() - i,
{
    if i < 0 || i >= es.len() {
        None
    } else if es[i].0 == code {
        Some((es[i].1, es[i].2))
    } else {
        lookup_from(es, i + 1, code)
    }
}

/// The entry registered under `code`, if any.
pub open spec fn lookup_entry(
    es: Seq<(u32, Seq<char>, Seq<char>)>,
    code: u32,
) -> Option<(Seq<char>, Seq<char>)> {
    lookup_from(es, 0, code)
}

fn push_entry(v: &mut Vec<(u32, ErrorInfo)>, code: u32, pattern: &str, message: &str)
    ensures
        entries_vec_view(final(v)@) == entries_vec_view(old(v)@).push((code, pattern@, message@)),
{
    let info = ErrorInfo { pattern: String::from_str(pattern), message: String::from_str(message) };
    v.push((code, info));
    proof {
        assert(entries_vec_view(v@) =~= entries_vec_view(old(v)@).push((code, pattern@, message@)));
    }
}

/// Every entry of the catalog, in registration order.
pub open spec fn catalog_entries() -> Seq<(u32, Seq<char>, Seq<char>)> {
    seq![
        (1002u32, "Unterminated string literal."@, "You've started a string but haven't ended it."@),
        (1003u32, "Identifier expected."@, "I was expecting a name but none was provided."@),
        (1005u32, "'{0}' expected."@, "'{0}' is expected here."@),
        (1006u32, "A file cannot end inside a template literal."@, "A file cannot end inside a template literal."@),
        (1009u32, "Trailing comma not allowed."@, "You've added a trailing comma when you're not supposed to."@),
        (1014u32, "A rest parameter must be last in a parameter list."@, "A parameter that starts with `...` must be the last one in the list."@),
        (1015u32, "Parameter cannot have question mark and initializer."@, "A parameter cannot use both a question mark and a default value - choose one or the other."@),
        (1091u32, "Only a single variable declaration is allowed in a 'for...in' statement."@, "You can only create a single variable in a 'for...in' statement."@),
        (1109u32, "Expression expected."@, "I was expecting some code that gives me a value."@),
        (1117u32, "An object literal cannot have multiple properties with the same name."@, "You can't add the same property multiple times to an object."@),
        (1155u32, "A 'const' assertions can only be applied to references to enum members, or string, number, boolean, array, or object literals."@, "A `const` must be given a value when you declare it."@),
        (1163u32, "A computed property name must be of type '{0}'."@, "A computed property name must be of type '{0}'."@),
        (1208u32, "'{0}' cannot be compiled under '--isolatedModules' because it is considered a global script file. Add an import, export, or an empty 'export {}' statement to make it a module."@, "'{0}' is being treated as a script, not a module. Add an import, export, or an empty 'export {{}}' statement to make it a module."@),
        (1240u32, "Unable to resolve signature of class decorator when called as an expression."@, "I can't resolve the signature of this class decorator."@),
        (1254u32, "A 'const' assertion can only be applied to a string, number, boolean, array, or object literal."@, "A 'const' assertion can only be applied to a string, number, boolean, array, or object literal."@),
        (1268u32, "'await' expressions are only allowed at the top level of a file when that file is a module, but this file has no imports or exports. Consider adding an empty 'export {}' to make this file a module."@, "'await' expressions are only allowed at the top level of a file when that file is a module. Add an empty 'export {{}}' to make this file a module."@),
        (1313u32, "A class may only extend another class."@, "A class may only extend another class."@),
        (1434u32, "Top-level 'await' expressions are only allowed when the 'module' option is set to 'es2022', 'esnext', 'system', 'node16', 'nodenext', or 'preserve', and the 'target' option is set to 'es2017' or higher."@, "You need to enable top-level await in your tsconfig."@),
        (2304u32, "Cannot find name '{0}'."@, "I can't find '{0}' - it might not be imported or defined."@),
        (2305u32, "Module '{0}' has no exported member '{1}'."@, "'{1}' is not exported from '{0}'."@),
        (2307u32, "Cannot find module '{0}' or its corresponding type declarations."@, "This could be one of two things - either '{0}' doesn't exist on your file system, or I can't find any type declarations for it."@),
        (2312u32, "An interface can only extend an object type or intersection of object types with statically known members."@, "An interface can only extend an object type or another interface."@),
        (2314u32, "Generic type '{0}' requires {1} type argument(s)."@, "'{0}' requires {1} type argument(s) - you need to pass them via a generic."@),
        (2322u32, "Type '{0}' is not assignable to type '{1}'."@, "I was expecting a type matching '{1}' but instead you passed '{0}'."@),
        (2324u32, "Property '{0}' is missing in type '{1}'."@, "Property '{0}' is missing in type '{1}'."@),
        (2326u32, "Types of property '{0}' are incompatible."@, "Types of property '{0}' are incompatible."@),
        (2327u32, "Index signature is missing in type '{0}'."@, "Index signature is missing in type '{0}'."@),
        (2339u32, "Property '{0}' does not exist on type '{1}'."@, "You're trying to access '{0}' on an object that doesn't contain it."@),
        (2344u32, "Type '{0}' does not satisfy the constraint '{1}'."@, "Type '{0}' doesn't satisfy the constraint '{1}'."@),
        (2345u32, "Argument of type '{0}' is not assignable to parameter of type '{1}'."@, "I was expecting '{1}' but you passed '{0}'."@),
        (2349u32, "This expression is not callable."@, "You're trying to call something that isn't a function."@),
        (2352u32, "Conversion of type '{0}' to type '{1}' may be a mistake because neither type sufficiently overlaps with the other."@, "Converting '{0}' to '{1}' may be a mistake - these types don't overlap."@),
        (2353u32, "Object literal may only specify known properties, and '{0}' does not exist in type '{1}'."@, "You can't pass property '{0}' to type '{1}'."@),
        (2355u32, "A function whose declared type is neither 'void' nor 'any' must return a value."@, "This function says it returns something, but it doesn't return anything."@),
        (2365u32, "Operator '{0}' cannot be applied to types '{1}' and '{2}'."@, "Operator '{0}' cannot be applied to types '{1}' and '{2}'."@),
        (2393u32, "Duplicate function implementation."@, "You've got a duplicate function implementation."@),
        (2414u32, "Class name cannot be '{0}'."@, "Class name cannot be '{0}'."@),
        (2451u32, "Cannot redeclare block-scoped variable '{0}'."@, "'{0}' has already been declared - you can't declare it again."@),
        (2488u32, "Type '{0}' must have a '[Symbol.iterator]()' method that returns an iterator."@, "Type '{0}' must have a '[Symbol.iterator]()' method to use for-of."@),
        (2551u32, "Property '{0}' does not exist on type '{1}'. Did you mean '{2}'?"@, "You're trying to access '{0}' on an object that doesn't contain it. Did you mean '{2}'?"@),
        (2552u32, "Cannot find name '{0}'. Did you mean '{1}'?"@, "Cannot find name '{0}'. Did you mean '{1}'?"@),
        (2554u32, "Expected {0} arguments, but got {1}."@, "This function needs {0} argument(s), but you're passing {1}."@),
        (2556u32, "A spread argument must either have a tuple type or be passed to a rest parameter."@, "A spread argument must be from a tuple or passed to a rest parameter."@),
        (2571u32, "Object is of type 'unknown'."@, "I don't know what type this object is, so I've defaulted it to 'unknown'."@),
        (2590u32, "Expression produces a union type that is too complex to represent."@, "This expression produces a type that's too complex for me to represent."@),
        (2604u32, "JSX element type '{0}' does not have any construct or call signatures."@, "JSX element type '{0}' doesn't have any construct or call signatures."@),
        (2614u32, "Module '{0}' has no default export."@, "Module '{0}' has no default export."@),
        (2686u32, "'{0}' refers to a UMD global, but the current file is a module. Consider adding an import instead."@, "'{0}' refers to a UMD global, but this file is a module. Consider adding an import instead."@),
        (2722u32, "Cannot invoke an object which is possibly 'undefined'."@, "This value might be undefined - check that it exists before using it."@),
        (2739u32, "Type '{0}' is missing the following properties from type '{1}': {2}"@, "'{0}' is missing some required properties from type '{1}': {2}"@),
        (2741u32, "Property '{0}' is missing in type '{1}' but required in type '{2}'."@, "You haven't passed all the required properties to '{2}' - '{1}' is missing the '{0}' property."@),
        (2749u32, "'{0}' refers to a value, but is being used as a type here. Did you mean 'typeof {0}'?"@, "'{0}' is a value, not a type. Did you mean 'typeof {0}'?"@),
        (2761u32, "Type import '{0}' cannot be used as a value because it was exported using 'export type'."@, "'{0}' is a type-only import and can't be used as a value."@),
        (2775u32, "Assertions require every name in the call target to be declared with an explicit type annotation."@, "Assertions require every name to be declared with an explicit type annotation."@),
        (2783u32, "'{0}' is specified more than once, so this usage will be overwritten."@, "'{0}' is specified more than once - the later value will overwrite earlier ones."@),
        (5075u32, "'{0}' is a type and cannot be imported in JavaScript files. Use '{1}' in a JSDoc type annotation."@, "'{0}' is a type and can't be imported in JavaScript files."@),
        (6133u32, "'{0}' is declared but its value is never read."@, "'{0}' is declared but never used."@),
        (6142u32, "Module '{0}' was resolved to '{1}', but '--resolveJsonModule' is not used."@, "Module '{0}' is imported but '--resolveJsonModule' is not enabled in your tsconfig."@),
        (6196u32, "'{0}' is declared but never used."@, "'{0}' is declared but never used."@),
        (6244u32, "Module '{0}' was resolved to '{1}', but '--jsx' is not set."@, "Module '{0}' was resolved but '--jsx' is not set in your tsconfig."@),
        (7006u32, "Parameter '{0}' implicitly has an '{1}' type."@, "I don't know what type '{0}' is supposed to be, so I've defaulted it to '{1}'. Your tsconfig says I should throw an error here."@),
        (7017u32, "Element implicitly has an 'any' type because type '{0}' has no index signature."@, "Type '{0}' has no index signature, so element access gives an implicit 'any' type."@),
        (7026u32, "JSX element implicitly has type 'any' because no interface 'JSX.IntrinsicElements' exists."@, "JSX element has an implicit 'any' type because 'JSX.IntrinsicElements' doesn't exist."@),
        (7053u32, "Element implicitly has an 'any' type because expression of type '{0}' can't be used to index type '{1}'."@, "Expression of type '{0}' can't be used to index type '{1}'."@),
        (7057u32, "'yield' expression implicitly results in an 'any' type because its containing generator lacks a return-type annotation."@, "'yield' needs a type annotation on the containing generator."@),
        (7061u32, "A mapped type may not declare properties or methods."@, "A mapped type may not declare properties or methods."@),
        (8016u32, "Type arguments can only be used in TypeScript files."@, "Type arguments can only be used in TypeScript files."@),
        (17004u32, "Cannot use JSX unless the '--jsx' flag is provided."@, "Add 'jsx' to your tsconfig.json to use JSX."@),
        (18004u32, "No value exists in scope for the shorthand property '{0}'. Either declare one or provide an initializer."@, "No value exists for shorthand property '{0}'. Either declare one or provide an initializer."@),
        (95050u32, "Convert function to an async function"@, "Consider converting this function to an async function."@),
    ]
}

impl Catalog {
    /// What the registry holds.
    pub closed spec fn entries_view(&self) -> Seq<(u32, Seq<char>, Seq<char>)> {
        entries_vec_view(self.entries@)
    }

    /// Build the catalog.
    pub fn new() -> (r: Catalog)
        ensures
            r.entries_view() == catalog_entries(),
    {
        let mut v: Vec<(u32, ErrorInfo)> = Vec::new();
        proof {
            assert(entries_vec_view(v@) =~= Seq::<(u32, Seq<char>, Seq<char>)>::empty());
        }
        push_entry(&mut v, 1002, "Unterminated string literal.", "You've started a string but haven't ended it.");
        push_entry(&mut v, 1003, "Identifier expected.", "I was expecting a name but none was provided.");
        push_entry(&mut v, 1005, "'{0}' expected.", "'{0}' is expected here.");
        push_entry(&mut v, 1006, "A file cannot end inside a template literal.", "A file cannot end inside a template literal.");
        push_entry(&mut v, 1009, "Trailing comma not allowed.", "You've added a trailing comma when you're not supposed to.");
        push_entry(&mut v, 1014, "A rest parameter must be last in a parameter list.", "A parameter that starts with `...` must be the last one in the list.");
        push_entry(&mut v, 1015, "Parameter cannot have question mark and initializer.", "A parameter cannot use both a question mark and a default value - choose one or the other.");
        push_entry(&mut v, 1091, "Only a single variable declaration is allowed in a 'for...in' statement.", "You can only create a single variable in a 'for...in' statement.");
        push_entry(&mut v, 1109, "Expression expected.", "I was expecting some code that gives me a value.");
        push_entry(&mut v, 1117, "An object literal cannot have multiple properties with the same name.", "You can't add the same property multiple times to an object.");
        push_entry(&mut v, 1155, "A 'const' assertions can only be applied to references to enum members, or string, number, boolean, array, or object literals.", "A `const` must be given a value when you declare it.");
        push_entry(&mut v, 1163, "A computed property name must be of type '{0}'.", "A computed property name must be of type '{0}'.");
        push_entry(&mut v, 1208, "'{0}' cannot be compiled under '--isolatedModules' because it is considered a global script file. Add an import, export, or an empty 'export {}' statement to make it a module.", "'{0}' is being treated as a script, not a module. Add an import, export, or an empty 'export {{}}' statement to make it a module.");
        push_entry(&mut v, 1240, "Unable to resolve signature of class decorator when called as an expression.", "I can't resolve the signature of this class decorator.");
        push_entry(&mut v, 1254, "A 'const' assertion can only be applied to a string, number, boolean, array, or object literal.", "A 'const' assertion can only be applied to a string, number, boolean, array, or object literal.");
        push_entry(&mut v, 1268, "'await' expressions are only allowed at the top level of a file when that file is a module, but this file has no imports or exports. Consider adding an empty 'export {}' to make this file a module.", "'await' expressions are only allowed at the top level of a file when that file is a module. Add an empty 'export {{}}' to make this file a module.");
        push_entry(&mut v, 1313, "A class may only extend another class.", "A class may only extend another class.");
        push_entry(&mut v, 1434, "Top-level 'await' expressions are only allowed when the 'module' option is set to 'es2022', 'esnext', 'system', 'node16', 'nodenext', or 'preserve', and the 'target' option is set to 'es2017' or higher.", "You need to enable top-level await in your tsconfig.");
        push_entry(&mut v, 2304, "Cannot find name '{0}'.", "I can't find '{0}' - it might not be imported or defined.");
        push_entry(&mut v, 2305, "Module '{0}' has no exported member '{1}'.", "'{1}' is not exported from '{0}'.");
        push_entry(&mut v, 2307, "Cannot find module '{0}' or its corresponding type declarations.", "This could be one of two things - either '{0}' doesn't exist on your file system, or I can't find any type declarations for it.");
        push_entry(&mut v, 2312, "An interface can only extend an object type or intersection of object types with statically known members.", "An interface can only extend an object type or another interface.");
        push_entry(&mut v, 2314, "Generic type '{0}' requires {1} type argument(s).", "'{0}' requires {1} type argument(s) - you need to pass them via a generic.");
        push_entry(&mut v, 2322, "Type '{0}' is not assignable to type '{1}'.", "I was expecting a type matching '{1}' but instead you passed '{0}'.");
        push_entry(&mut v, 2324, "Property '{0}' is missing in type '{1}'.", "Property '{0}' is missing in type '{1}'.");
        push_entry(&mut v, 2326, "Types of property '{0}' are incompatible.", "Types of property '{0}' are incompatible.");
        push_entry(&mut v, 2327, "Index signature is missing in type '{0}'.", "Index signature is missing in type '{0}'.");
        push_entry(&mut v, 2339, "Property '{0}' does not exist on type '{1}'.", "You're trying to access '{0}' on an object that doesn't contain it.");
        push_entry(&mut v, 2344, "Type '{0}' does not satisfy the constraint '{1}'.", "Type '{0}' doesn't satisfy the constraint '{1}'.");
        push_entry(&mut v, 2345, "Argument of type '{0}' is not assignable to parameter of type '{1}'.", "I was expecting '{1}' but you passed '{0}'.");
        push_entry(&mut v, 2349, "This expression is not callable.", "You're trying to call something that isn't a function.");
        push_entry(&mut v, 2352, "Conversion of type '{0}' to type '{1}' may be a mistake because neither type sufficiently overlaps with the other.", "Converting '{0}' to '{1}' may be a mistake - these types don't overlap.");
        push_entry(&mut v, 2353, "Object literal may only specify known properties, and '{0}' does not exist in type '{1}'.", "You can't pass property '{0}' to type '{1}'.");
        push_entry(&mut v, 2355, "A function whose declared type is neither 'void' nor 'any' must return a value.", "This function says it returns something, but it doesn't return anything.");
        push_entry(&mut v, 2365, "Operator '{0}' cannot be applied to types '{1}' and '{2}'.", "Operator '{0}' cannot be applied to types '{1}' and '{2}'.");
        push_entry(&mut v, 2393, "Duplicate function implementation.", "You've got a duplicate function implementation.");
        push_entry(&mut v, 2414, "Class name cannot be '{0}'.", "Class name cannot be '{0}'.");
        push_entry(&mut v, 2451, "Cannot redeclare block-scoped variable '{0}'.", "'{0}' has already been declared - you can't declare it again.");
        push_entry(&mut v, 2488, "Type '{0}' must have a '[Symbol.iterator]()' method that returns an iterator.", "Type '{0}' must have a '[Symbol.iterator]()' method to use for-of.");
        push_entry(&mut v, 2551, "Property '{0}' does not exist on type '{1}'. Did you mean '{2}'?", "You're trying to access '{0}' on an object that doesn't contain it. Did you mean '{2}'?");
        push_entry(&mut v, 2552, "Cannot find name '{0}'. Did you mean '{1}'?", "Cannot find name '{0}'. Did you mean '{1}'?");
        push_entry(&mut v, 2554, "Expected {0} arguments, but got {1}.", "This function needs {0} argument(s), but you're passing {1}.");
        push_entry(&mut v, 2556, "A spread argument must either have a tuple type or be passed to a rest parameter.", "A spread argument must be from a tuple or passed to a rest parameter.");
        push_entry(&mut v, 2571, "Object is of type 'unknown'.", "I don't know what type this object is, so I've defaulted it to 'unknown'.");
        push_entry(&mut v, 2590, "Expression produces a union type that is too complex to represent.", "This expression produces a type that's too complex for me to represent.");
        push_entry(&mut v, 2604, "JSX element type '{0}' does not have any construct or call signatures.", "JSX element type '{0}' doesn't have any construct or call signatures.");
        push_entry(&mut v, 2614, "Module '{0}' has no default export.", "Module '{0}' has no default export.");
        push_entry(&mut v, 2686, "'{0}' refers to a UMD global, but the current file is a module. Consider adding an import instead.", "'{0}' refers to a UMD global, but this file is a module. Consider adding an import instead.");
        push_entry(&mut v, 2722, "Cannot invoke an object which is possibly 'undefined'.", "This value might be undefined - check that it exists before using it.");
        push_entry(&mut v, 2739, "Type '{0}' is missing the following properties from type '{1}': {2}", "'{0}' is missing some required properties from type '{1}': {2}");
        push_entry(&mut v, 2741, "Property '{0}' is missing in type '{1}' but required in type '{2}'.", "You haven't passed all the required properties to '{2}' - '{1}' is missing the '{0}' property.");
        push_entry(&mut v, 2749, "'{0}' refers to a value, but is being used as a type here. Did you mean 'typeof {0}'?", "'{0}' is a value, not a type. Did you mean 'typeof {0}'?");
        push_entry(&mut v, 2761, "Type import '{0}' cannot be used as a value because it was exported using 'export type'.", "'{0}' is a type-only import and can't be used as a value.");
        push_entry(&mut v, 2775, "Assertions require every name in the call target to be declared with an explicit type annotation.", "Assertions require every name to be declared with an explicit type annotation.");
        push_entry(&mut v, 2783, "'{0}' is specified more than once, so this usage will be overwritten.", "'{0}' is specified more than once - the later value will overwrite earlier ones.");
        push_entry(&mut v, 5075, "'{0}' is a type and cannot be imported in JavaScript files. Use '{1}' in a JSDoc type annotation.", "'{0}' is a type and can't be imported in JavaScript files.");
        push_entry(&mut v, 6133, "'{0}' is declared but its value is never read.", "'{0}' is declared but never used.");
        push_entry(&mut v, 6142, "Module '{0}' was resolved to '{1}', but '--resolveJsonModule' is not used.", "Module '{0}' is imported but '--resolveJsonModule' is not enabled in your tsconfig.");
        push_entry(&mut v, 6196, "'{0}' is declared but never used.", "'{0}' is declared but never used.");
        push_entry(&mut v, 6244, "Module '{0}' was resolved to '{1}', but '--jsx' is not set.", "Module '{0}' was resolved but '--jsx' is not set in your tsconfig.");
        push_entry(&mut v, 7006, "Parameter '{0}' implicitly has an '{1}' type.", "I don't know what type '{0}' is supposed to be, so I've defaulted it to '{1}'. Your tsconfig says I should throw an error here.");
        push_entry(&mut v, 7017, "Element implicitly has an 'any' type because type '{0}' has no index signature.", "Type '{0}' has no index signature, so element access gives an implicit 'any' type.");
        push_entry(&mut v, 7026, "JSX element implicitly has type 'any' because no interface 'JSX.IntrinsicElements' exists.", "JSX element has an implicit 'any' type because 'JSX.IntrinsicElements' doesn't exist.");
        push_entry(&mut v, 7053, "Element implicitly has an 'any' type because expression of type '{0}' can't be used to index type '{1}'.", "Expression of type '{0}' can't be used to index type '{1}'.");
        push_entry(&mut v, 7057, "'yield' expression implicitly results in an 'any' type because its containing generator lacks a return-type annotation.", "'yield' needs a type annotation on the containing generator.");
        push_entry(&mut v, 7061, "A mapped type may not declare properties or methods.", "A mapped type may not declare properties or methods.");
        push_entry(&mut v, 8016, "Type arguments can only be used in TypeScript files.", "Type arguments can only be used in TypeScript files.");
        push_entry(&mut v, 17004, "Cannot use JSX unless the '--jsx' flag is provided.", "Add 'jsx' to your tsconfig.json to use JSX.");
        push_entry(&mut v, 18004, "No value exists in scope for the shorthand property '{0}'. Either declare one or provide an initializer.", "No value exists for shorthand property '{0}'. Either declare one or provide an initializer.");
        push_entry(&mut v, 95050, "Convert function to an async function", "Consider converting this function to an async function.");
        proof {
            assert(entries_vec_view(v@) == catalog_entries());
        }
        Catalog { entries: v }
    }

    /// Look an identifier up; `Some` exactly when the catalog registers it.
    pub fn lookup(&self, code: u32) -> (r: Option<&ErrorInfo>)
        ensures
            match r {
                Some(info) => lookup_entry(self.entries_view(), code) == Some(
                    (info.pattern@, info.message@),
                ),
                None => lookup_entry(self.entries_view(), code) is None,
            },
    {
        let ghost ev = self.entries_view();
        let mut i: usize = 0;
        while i < self.entries.len()
            invariant
                i <= self.entries@.len(),
                ev == self.entries_view(),
                ev.len() == self.entries@.len(),
                lookup_from(ev, 0, code) == lookup_from(ev, i as int, code),
            decreases self.entries@.len() - i,
        {
            let e: &(u32, ErrorInfo) = &self.entries[i];
            proof {
                assert(ev[i as int] == entry_view(self.entries@[i as int]));
            }
            if e.0 == code {
                return Some(&e.1);
            }
            i = i + 1;
        }
        None
    }
}

} // verus!
