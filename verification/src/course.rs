//! The descriptions that make up a generated course: the course itself, its
//! lessons, their exercises, and the texts and metadata attached to them.

use vstd::prelude::*;

verus! {

/// A text to be stored under a file name.
#[derive(Clone, Debug, PartialEq, Eq)]
pub struct AssetSpec {
    /// The name of the file that holds the text.
    pub file_name: String,
    /// The text itself.
    pub contents: String,
}

/// One category of metadata together with the values filed under it.
#[derive(Clone, Debug, PartialEq, Eq)]
pub struct MetadataEntry {
    /// The category.
    pub key: String,
    /// The values of the category.
    pub values: Vec<String>,
}

/// The description of one exercise: a question and its answer.
#[derive(Clone, Debug, PartialEq, Eq)]
pub struct ExerciseSpec {
    /// The identifier of the exercise, unique within its lesson.
    pub id: String,
    /// The name shown to the learner.
    pub name: String,
    /// The name of the directory that holds the exercise.
    pub directory_name: String,
    /// The text that asks the question.
    pub front: AssetSpec,
    /// The text that gives the answer.
    pub back: AssetSpec,
}

/// The description of one lesson: the exercises for one key.
#[derive(Clone, Debug, PartialEq, Eq)]
pub struct LessonSpec {
    /// The identifier of the lesson.
    pub id: String,
    /// The name shown to the learner.
    pub name: String,
    /// What the lesson is about.
    pub description: String,
    /// The name of the directory that holds the lesson.
    pub directory_name: String,
    /// The identifiers of the lessons to be mastered before this one.
    pub dependencies: Vec<String>,
    /// The metadata of the lesson, each category listed once.
    pub metadata: Vec<MetadataEntry>,
    /// The exercises of the lesson, in the order of the strings.
    pub exercises: Vec<ExerciseSpec>,
}

/// The description of a whole course.
#[derive(Clone, Debug, PartialEq, Eq)]
pub struct CourseSpec {
    /// The identifier of the course.
    pub id: String,
    /// The name shown to the learner.
    pub name: String,
    /// What the course is about.
    pub description: String,
    /// The name of the directory that holds the course.
    pub directory_name: String,
    /// The authors of the course.
    pub authors: Vec<String>,
    /// The identifiers of the courses to be mastered before this one.
    pub dependencies: Vec<String>,
    /// The metadata of the course, each category listed once.
    pub metadata: Vec<MetadataEntry>,
    /// The texts that belong to the course as a whole.
    pub assets: Vec<AssetSpec>,
    /// The lessons of the course, in the order in which they follow one another.
    pub lessons: Vec<LessonSpec>,
}

/// What an [`AssetSpec`] holds.
pub struct AssetView {
    pub file_name: Seq<char>,
    pub contents: Seq<char>,
}

/// What a [`MetadataEntry`] holds.
pub struct MetadataView {
    pub key: Seq<char>,
    pub values: Seq<Seq<char>>,
}

/// What an [`ExerciseSpec`] holds.
pub struct ExerciseView {
    pub id: Seq<char>,
    pub name: Seq<char>,
    pub directory_name: Seq<char>,
    pub front: AssetView,
    pub back: AssetView,
}

/// What a [`LessonSpec`] holds.
pub struct LessonView {
    pub id: Seq<char>,
    pub name: Seq<char>,
    pub description: Seq<char>,
    pub directory_name: Seq<char>,
    pub dependencies: Seq<Seq<char>>,
    pub metadata: Seq<MetadataView>,
    pub exercises: Seq<ExerciseView>,
}

/// What a [`CourseSpec`] holds.
pub struct CourseView {
    pub id: Seq<char>,
    pub name: Seq<char>,
    pub description: Seq<char>,
    pub directory_name: Seq<char>,
    pub authors: Seq<Seq<char>>,
    pub dependencies: Seq<Seq<char>>,
    pub metadata: Seq<MetadataView>,
    pub assets: Seq<AssetView>,
    pub lessons: Seq<LessonView>,
}

impl View for AssetSpec {
    type V = AssetView;

    open spec fn view(&self) -> AssetView {
        AssetView { file_name: self.file_name@, contents: self.contents@ }
    }
}

impl DeepView for AssetSpec {
    type V = AssetView;

    open spec fn deep_view(&self) -> AssetView {
        self@
    }
}

impl View for MetadataEntry {
    type V = MetadataView;

    open spec fn view(&self) -> MetadataView {
        MetadataView { key: self.key@, values: self.values.deep_view() }
    }
}

impl DeepView for MetadataEntry {
    type V = MetadataView;

    open spec fn deep_view(&self) -> MetadataView {
        self@
    }
}

impl View for ExerciseSpec {
    type V = ExerciseView;

    open spec fn view(&self) -> ExerciseView {
        ExerciseView {
            id: self.id@,
            name: self.name@,
            directory_name: self.directory_name@,
            front: self.front@,
            back: self.back@,
        }
    }
}

impl DeepView for ExerciseSpec {
    type V = ExerciseView;

    open spec fn deep_view(&self) -> ExerciseView {
        self@
    }
}

impl View for LessonSpec {
    type V = LessonView;

    open spec fn view(&self) -> LessonView {
        LessonView {
            id: self.id@,
            name: self.name@,
            description: self.description@,
            directory_name: self.directory_name@,
            dependencies: self.dependencies.deep_view(),
            metadata: self.metadata.deep_view(),
            exercises: self.exercises.deep_view(),
        }
    }
}

impl DeepView for LessonSpec {
    type V = LessonView;

    open spec fn deep_view(&self) -> LessonView {
        self@
    }
}

impl View for CourseSpec {
    type V = CourseView;

    open spec fn view(&self) -> CourseView {
        CourseView {
            id: self.id@,
            name: self.name@,
            description: self.description@,
            directory_name: self.directory_name@,
            authors: self.authors.deep_view(),
            dependencies: self.dependencies.deep_view(),
            metadata: self.metadata.deep_view(),
            assets: self.assets.deep_view(),
            lessons: self.lessons.deep_view(),
        }
    }
}

impl DeepView for CourseSpec {
    type V = CourseView;

    open spec fn deep_view(&self) -> CourseView {
        self@
    }
}

/// Whether no category occurs twice among the entries, so that they stand
/// for a mapping from categories to values.
pub open spec fn categories_differ(entries: Seq<MetadataView>) -> bool {
    forall|i: int, j: int|
        0 <= i < entries.len() && 0 <= j < entries.len() && i != j ==> (#[trigger] entries[i]).key
            != (#[trigger] entries[j]).key
}

impl CourseView {
    /// Whether the metadata of the course, and of each of its lessons, lists
    /// every category once.
    pub open spec fn well_formed(self) -> bool {
        &&& categories_differ(self.metadata)
        &&& forall|i: int|
            0 <= i < self.lessons.len() ==> categories_differ((#[trigger] self.lessons[i]).metadata)
    }
}

} // verus!
