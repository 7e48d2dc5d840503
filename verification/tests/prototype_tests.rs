use design_patterns::prototype::CloneConfiguration;
use design_patterns::prototype::CoverLetter;
use design_patterns::prototype::DocumentKind;
use design_patterns::prototype::DocumentPrototypeFactory;
use design_patterns::prototype::DocumentRegistry;
use design_patterns::prototype::PortfolioProject;
use design_patterns::prototype::Prototype;

#[test]
fn test_resume_clone() {
    let original = DocumentPrototypeFactory::create_tech_resume();
    let cloned = original.clone();

    assert_eq!(original.name, cloned.name);
    assert_eq!(original.skills.len(), cloned.skills.len());

    // Ensure they are separate instances
    assert_ne!(original.skills.as_ptr(), cloned.skills.as_ptr());
}

#[test]
fn test_registry_operations() {
    let mut registry = DocumentRegistry::new();
    let resume = DocumentPrototypeFactory::create_tech_resume();

    registry.register("tech_resume", DocumentKind::Resume(resume));

    let cloned = registry.clone_prototype("tech_resume");
    assert!(cloned.is_some());

    let prototypes = registry.list_prototypes();
    assert!(prototypes.contains(&"tech_resume".to_string()));
}

#[test]
fn test_clone_with_configuration() {
    let original = DocumentPrototypeFactory::create_tech_resume();

    let config = CloneConfiguration {
        include_personal_info: false,
        include_contact_info: true,
        include_experience: true,
        customize_for_role: Some("manager".to_string()),
    };

    let cloned = original.clone_with_config(&config);
    assert_eq!(cloned.name, "[Redacted]");
    assert!(cloned.skills.contains(&"Leadership".to_string()));
}

#[test]
fn test_cover_letter_clone() {
    let original = CoverLetter::new("John Doe", "TechCorp", "Developer");
    let cloned = original.clone();

    assert_eq!(original.company, cloned.company);
    assert_eq!(original.position, cloned.position);
}

#[test]
fn test_portfolio_project_clone() {
    let mut original = PortfolioProject::new("Web App", "A cool web application");
    original.technologies.push("React".to_string());
    original.technologies.push("Node.js".to_string());

    let cloned = original.deep_clone();
    assert_eq!(original.technologies.len(), cloned.technologies.len());
    assert_ne!(original.completion_date, cloned.completion_date);
}

#[test]
fn test_prototype_trait() {
    let resume = DocumentPrototypeFactory::create_tech_resume();
    let prototype = DocumentKind::Resume(resume);

    let cloned = prototype.clone_object();
    assert!(cloned.get_info().contains("Tech Professional"));
}

#[test]
fn test_document_info_lines() {
    let resume = DocumentPrototypeFactory::create_tech_resume();
    assert_eq!(resume.get_info(), "Resume for Tech Professional - 5 years experience, 4 skills");
    let letter = CoverLetter::new("Hiring Manager", "TechCorp", "Software Engineer");
    assert_eq!(letter.get_info(), "Cover Letter for Software Engineer position at TechCorp");
    assert_eq!(
        letter.content,
        "Dear Hiring Manager,\n\nI am writing to express my interest in the Software Engineer position at TechCorp."
    );
    let project = PortfolioProject::new("E-commerce Platform", "Full-stack web application");
    assert_eq!(project.get_info(), "Project: E-commerce Platform (0 technologies)");
}

#[test]
fn test_clone_for_position_deduplicates() {
    let base = DocumentPrototypeFactory::create_tech_resume();
    let extra = vec!["Rust".to_string(), "Database Design".to_string(), "Rust".to_string()];
    let tailored = base.clone_for_position(&extra);
    assert_eq!(
        tailored.skills,
        vec![
            "Rust".to_string(),
            "Python".to_string(),
            "JavaScript".to_string(),
            "Docker".to_string(),
            "Database Design".to_string()
        ]
    );
    // The source resume is untouched.
    assert_eq!(base.skills.len(), 4);
}

#[test]
fn test_registry_replaces_and_describes() {
    let mut registry = DocumentRegistry::default();
    let names = registry.list_prototypes();
    assert_eq!(
        names,
        vec![
            "basic_resume".to_string(),
            "basic_cover_letter".to_string(),
            "basic_project".to_string()
        ]
    );
    assert!(registry.get_prototype_info("missing").is_none());
    let info = registry.get_prototype_info("basic_project").unwrap();
    assert_eq!(info, "Project: [Project Name] (0 technologies)");
    registry.register(
        "basic_project",
        DocumentKind::Project(PortfolioProject::new("Replacement", "Another entry")),
    );
    assert_eq!(registry.list_prototypes().len(), 3);
    let info = registry.get_prototype_info("basic_project").unwrap();
    assert_eq!(info, "Project: Replacement (0 technologies)");
}
