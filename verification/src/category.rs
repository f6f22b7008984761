//! Categories: named bundles of tags and aspect ratios to search with.

use vstd::prelude::*;
use vstd::string::StringExecFns;
use crate::config::{CategoryConfig, GlobalConfig};
use crate::finder::{find_best_by_value, is_best_match};
use crate::text::{clone_strings, views};

verus! {

/// A category, with the aspect ratios that hold for it.
pub struct Category {
    pub name: String,
    pub tags: Vec<String>,
    pub aspect_ratios: Vec<String>,
}

/// Why no category was found for a name.
#[derive(Debug)]
pub enum CategoryError {
    /// No category is configured.
    NoneConfigured { name: String },
    /// No category has the name; the closest one is suggested.
    DidYouMean { name: String, suggestion: String },
}

impl CategoryError {
    /// The message of the error, as a text.
    pub open spec fn message_of(self) -> Seq<char> {
        match self {
            CategoryError::NoneConfigured { name } =>
                "Didn't find any categories matching the name '"@ + name@ + "'"@,
            CategoryError::DidYouMean { name, suggestion } =>
                "Didn't find any categories matching the name: '"@ + name@
                    + "', did you mean: '"@ + suggestion@ + "'?"@,
        }
    }

    /// The message of the error.
    pub fn message(&self) -> (text: String)
        ensures
            text@ == self.message_of(),
    {
        match self {
            CategoryError::NoneConfigured { name } => String::from_str(
                "Didn't find any categories matching the name '",
            ).concat(name.as_str()).concat("'"),
            CategoryError::DidYouMean { name, suggestion } => String::from_str(
                "Didn't find any categories matching the name: '",
            ).concat(name.as_str()).concat("', did you mean: '").concat(
                suggestion.as_str(),
            ).concat("'?"),
        }
    }
}

/// The names of a list of categories.
pub open spec fn category_names(categories: Seq<CategoryConfig>) -> Seq<Seq<char>> {
    categories.map_values(|category: CategoryConfig| category.name@)
}

/// The aspect ratios of a category: its own, or the general ones.
pub open spec fn ratios_of(config: CategoryConfig, general: Seq<Seq<char>>) -> Seq<Seq<char>> {
    match config.aspect_ratios {
        Some(own) => views(own@),
        None => general,
    }
}

impl Category {
    /// Whether the category is the one that `config` describes, given the
    /// general aspect ratios.
    pub open spec fn is_from(self, config: CategoryConfig, general: Seq<Seq<char>>) -> bool {
        &&& self.name@ == config.name@
        &&& views(self.tags@) == views(config.tags@)
        &&& views(self.aspect_ratios@) == ratios_of(config, general)
    }

    /// The category that a configuration entry describes: it keeps its own
    /// aspect ratios where it has any, and takes the general ones else.
    pub fn from_config(config: CategoryConfig, default_aspect_ratios: &Vec<String>) -> (category:
        Self)
        ensures
            category.is_from(config, views(default_aspect_ratios@)),
    {
        let aspect_ratios = match config.aspect_ratios {
            Some(own) => own,
            None => clone_strings(default_aspect_ratios),
        };
        Category { name: config.name, tags: config.tags, aspect_ratios }
    }

    /// What the search for a category by name comes to: the closest
    /// category where its name is exactly the one asked for, a suggestion of
    /// it where it is not, and an error of its own where none is configured.
    pub open spec fn is_lookup(
        name: Seq<char>,
        config: GlobalConfig,
        found: Result<Category, CategoryError>,
    ) -> bool {
        if config.categories@.len() == 0 {
            found matches Err(CategoryError::NoneConfigured { name: n }) && n@ == name
        } else {
            exists|best: int|
                #![trigger config.categories@[best]]
                is_best_match(name, category_names(config.categories@), best) && if name
                    == config.categories@[best].name@ {
                    found matches Ok(category) && category.is_from(
                        config.categories@[best],
                        views(config.aspect_ratios@),
                    )
                } else {
                    found matches Err(CategoryError::DidYouMean { name: n, suggestion }) && n@
                        == name && suggestion@ == config.categories@[best].name@
                }
        }
    }

    /// Finds the category of a name among the configured ones.
    pub fn find_in_config(name: &str, config: &GlobalConfig) -> (found: Result<Self, CategoryError>)
        requires
            name@.len() <= u32::MAX,
        ensures
            Self::is_lookup(name@, *config, found),
    {
        let mut names: Vec<String> = Vec::new();
        let mut i: usize = 0;
        while i < config.categories.len()
            invariant
                i <= config.categories.len(),
                views(names@) == category_names(config.categories@.take(i as int)),
            decreases config.categories.len() - i,
        {
            let ghost before = names@;
            names.push(config.categories[i].name.clone());
            assert(views(names@) =~= views(before).push(config.categories@[i as int].name@));
            assert(category_names(config.categories@.take(i + 1)) =~= category_names(
                config.categories@.take(i as int),
            ).push(config.categories@[i as int].name@));
            i = i + 1;
        }
        assert(config.categories@.take(config.categories@.len() as int) =~= config.categories@);
        let (equal, best_value) = find_best_by_value(name, &names);
        match best_value {
            Some(best) => {
                let value = &config.categories[best];
                assert(views(names@)[best as int] == names@[best as int]@);
                if equal {
                    let own = match &value.aspect_ratios {
                        Some(ratios) => Some(clone_strings(ratios)),
                        None => None,
                    };
                    let copy = CategoryConfig {
                        name: value.name.clone(),
                        tags: clone_strings(&value.tags),
                        aspect_ratios: own,
                    };
                    let category = Category::from_config(copy, &config.aspect_ratios);
                    Ok(category)
                } else {
                    Err(
                        CategoryError::DidYouMean {
                            name: name.to_owned(),
                            suggestion: value.name.clone(),
                        },
                    )
                }
            },
            None => Err(CategoryError::NoneConfigured { name: name.to_owned() }),
        }
    }
}

} // verus!
