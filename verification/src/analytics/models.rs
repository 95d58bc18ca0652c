//! Dashboards, widgets and reports of the analytics service. A widget's
//! configuration (`C`) is carried as it is.
use vstd::prelude::*;
use crate::time::Timestamp;

verus! {

#[derive(PartialEq, Eq, Structural, Clone, Copy, Debug)]
pub struct WidgetPosition {
    pub x: i32,
    pub y: i32,
}

#[derive(PartialEq, Eq, Structural, Clone, Copy, Debug)]
pub struct WidgetSize {
    pub width: i32,
    pub height: i32,
}

#[derive(PartialEq, Eq, Structural, Clone, Copy, Debug)]
pub enum WidgetType {
    LineChart,
    BarChart,
    PieChart,
    MetricCard,
    Table,
    Heatmap,
    Gauge,
}

#[derive(PartialEq, Eq, Structural, Clone, Copy, Debug)]
pub enum AggregationType {
    Sum,
    Count,
    Average,
    Min,
    Max,
    Distinct,
}

#[derive(PartialEq, Eq, Structural, Clone, Copy, Debug)]
pub enum ReportType {
    UserActivity,
    Revenue,
    SessionAnalytics,
    MentorPerformance,
    PlatformHealth,
    Custom,
}

#[derive(PartialEq, Eq, Structural, Clone, Copy, Debug)]
pub enum ScheduleFrequency {
    Daily,
    Weekly,
    Monthly,
    Quarterly,
}

/// When a report is produced: how often, at which `HH:MM` in which time
/// zone, and whether the schedule is on.
pub struct ReportSchedule {
    pub frequency: ScheduleFrequency,
    pub time: String,
    pub timezone: String,
    pub is_active: bool,
}

pub struct CreateDashboardRequest {
    pub name: String,
    pub description: Option<String>,
}

pub struct DashboardWidget<C> {
    pub widget_id: u128,
    pub widget_type: WidgetType,
    pub title: String,
    pub configuration: C,
    pub position: WidgetPosition,
    pub size: WidgetSize,
}

pub struct Dashboard<C> {
    pub dashboard_id: u128,
    pub name: String,
    pub description: Option<String>,
    pub user_id: u128,
    pub widgets: Vec<DashboardWidget<C>>,
    pub is_public: bool,
    pub created_at: Timestamp,
    pub updated_at: Timestamp,
}

} // verus!
